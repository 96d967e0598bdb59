//! Masking of secrets before they reach logs or diagnostics.
use vstd::prelude::*;

use crate::text::{append_range, chars_of, find_chars, find_first, lemma_find_from};

verus! {

broadcast use vstd::string::group_string_axioms;

/// Defines the strategy used to mask or secure a sensitive value.
#[derive(Debug, Clone, Copy)]
pub enum SecretMaskStrategy {
    /// Completely obscures the value.
    FullyRedacted,
    /// Masks everything except a few visible characters at the start and end:
    /// `(visible_prefix_len, visible_suffix_len)`.
    ExposeEdges(usize, usize),
    /// Parses a database URI and replaces only its `username:password` segment.
    DatabaseUri,
}

/// A centralized secure configuration wrapper for logs and diagnostics.
pub struct SecureLogUtil;

/// The eight characters that stand for a hidden run of a secret.
pub open spec fn stars() -> Seq<char> {
    "********"@
}

/// The masked form of `value` under `strategy`; `key` names the value in messages.
pub open spec fn mask_spec(key: Seq<char>, value: Seq<char>, strategy: SecretMaskStrategy) -> Seq<char> {
    if value.len() == 0 {
        "["@ + key + " IS EMPTY/MISSING]"@
    } else {
        match strategy {
            SecretMaskStrategy::FullyRedacted => "[REDACTED]"@,
            SecretMaskStrategy::ExposeEdges(prefix, suffix) => {
                if value.len() <= prefix + suffix {
                    stars()
                } else {
                    value.take(prefix as int) + stars() + value.skip(value.len() - suffix)
                }
            },
            SecretMaskStrategy::DatabaseUri => match find_first(value, "://"@) {
                Some(i) => {
                    let scheme = value.take(i + 3);
                    let remainder = value.skip(i + 3);
                    match find_first(remainder, "@"@) {
                        Some(j) => scheme + "******:******"@ + remainder.skip(j),
                        None => value,
                    }
                },
                None => "[REDACTED "@ + key + " - INVALID URI FORMAT]"@,
            },
        }
    }
}

/// Exposing the edges of a value longer than both edges together keeps
/// exactly its first `prefix` characters, then eight stars, then exactly its
/// last `suffix` characters.
pub proof fn lemma_expose_edges_layout(key: Seq<char>, value: Seq<char>, prefix: usize, suffix: usize)
    requires
        value.len() > prefix + suffix,
    ensures
        ({
            let r = mask_spec(key, value, SecretMaskStrategy::ExposeEdges(prefix, suffix));
            &&& r.len() == prefix + 8 + suffix
            &&& forall|i: int| 0 <= i < prefix ==> #[trigger] r[i] == value[i]
            &&& forall|i: int| prefix <= i < prefix + 8 ==> #[trigger] r[i] == '*'
            &&& forall|i: int|
                0 <= i < suffix ==> #[trigger] r[prefix + 8 + i] == value[value.len() - suffix + i]
        }),
{
    reveal_strlit("********");
    let r = mask_spec(key, value, SecretMaskStrategy::ExposeEdges(prefix, suffix));
    let (head, tail) = (value.take(prefix as int), value.skip(value.len() - suffix));
    assert(r == head + stars() + tail);
    assert forall|i: int| 0 <= i < suffix implies #[trigger] r[prefix + 8 + i] == value[value.len() - suffix + i] by {
        assert(r[prefix + 8 + i] == value.skip(value.len() - suffix)[i]);
    }
}

/// A non-empty value too short to expose both edges is wholly replaced by
/// eight stars, and a fully redacted one by "[REDACTED]": nothing of the
/// value shows.
pub proof fn lemma_short_or_redacted_values_hide_everything(
    key: Seq<char>,
    value: Seq<char>,
    prefix: usize,
    suffix: usize,
)
    requires
        value.len() > 0,
    ensures
        value.len() <= prefix + suffix ==> mask_spec(key, value, SecretMaskStrategy::ExposeEdges(prefix, suffix))
            == "********"@,
        mask_spec(key, value, SecretMaskStrategy::FullyRedacted) == "[REDACTED]"@,
{
}

impl SecureLogUtil {
    /// Secures a sensitive value according to `strategy`.
    ///
    /// * `key` - the name of the variable or field, used in the messages
    /// * `value` - the raw secret
    /// * `strategy` - how to transform it
    pub fn mask_value(key: &str, value: &str, strategy: SecretMaskStrategy) -> (r: String)
        requires
            strategy matches SecretMaskStrategy::ExposeEdges(p, s) ==> p + s <= usize::MAX,
        ensures
            r@ == mask_spec(key@, value@, strategy),
    {
        let chars = chars_of(value);
        if chars.len() == 0 {
            let mut m = String::from_str("[");
            m.append(key);
            m.append(" IS EMPTY/MISSING]");
            return m;
        }
        match strategy {
            SecretMaskStrategy::FullyRedacted => String::from_str("[REDACTED]"),
            SecretMaskStrategy::ExposeEdges(prefix, suffix) => {
                let len = chars.len();
                if len <= prefix + suffix {
                    return String::from_str("********");
                }
                let mut m = String::new();
                append_range(&mut m, &chars, 0, prefix);
                m.append("********");
                append_range(&mut m, &chars, len - suffix, len);
                assert(m@ =~= value@.take(prefix as int) + stars() + value@.skip(len - suffix));
                m
            },
            SecretMaskStrategy::DatabaseUri => {
                proof {
                    reveal_strlit("://");
                    reveal_strlit("@");
                }
                let sep = chars_of("://");
                match find_chars(&chars, &sep) {
                    Some(scheme_end) => {
                        proof {
                            lemma_find_from(value@, "://"@, 0);
                        }
                        let start = scheme_end + 3;
                        let mut rest: Vec<char> = Vec::new();
                        let mut k = start;
                        while k < chars.len()
                            invariant
                                start <= k <= chars@.len(),
                                rest@ == chars@.subrange(start as int, k as int),
                            decreases chars@.len() - k,
                        {
                            rest.push(chars[k]);
                            k += 1;
                            assert(rest@ =~= chars@.subrange(start as int, k as int));
                        }
                        assert(rest@ =~= value@.skip(start as int));
                        let at = chars_of("@");
                        match find_chars(&rest, &at) {
                            Some(auth_end) => {
                                proof {
                                    lemma_find_from(rest@, "@"@, 0);
                                }
                                let mut m = String::new();
                                append_range(&mut m, &chars, 0, start);
                                m.append("******:******");
                                append_range(&mut m, &rest, auth_end, rest.len());
                                assert(chars@.subrange(0, start as int) =~= value@.take(start as int));
                                assert(rest@.subrange(auth_end as int, rest@.len() as int) =~= rest@.skip(auth_end as int));
                                m
                            },
                            None => {
                                let mut m = String::new();
                                m.append(value);
                                assert(m@ =~= value@);
                                m
                            },
                        }
                    },
                    None => {
                        let mut m = String::from_str("[REDACTED ");
                        m.append(key);
                        m.append(" - INVALID URI FORMAT]");
                        m
                    },
                }
            },
        }
    }
}

} // verus!
