//! Full image preprocessor for native deployments (local server, AWS):
//! validates the MIME type, decodes the image, shrinks it to the maximum
//! dimension keeping its aspect ratio, re-encodes it (as WebP, or in its own
//! format) and
//! optionally encrypts the result.
use vstd::arithmetic::div_mod::lemma_fundamental_div_mod;
use vstd::arithmetic::power2::{
    lemma2_to64, lemma_pow2_adds, lemma_pow2_strictly_increases, lemma_pow2_unfold, pow2,
};
use vstd::prelude::*;

use crate::app_error::{error_view, AppError};
use crate::text::views;

use super::encryption_utils::{decrypt_spec, encryption_failure};
use super::image_codec::{
    decode_image, encode_own_format, encode_webp_lossless, image_height, image_height_of, image_read_outcome, image_width,
    image_width_of, own_format_encoding_of, resize_lanczos3, webp_lossless_of, ImageReadFailure, ImageSource,
};
use super::{
    mime_allowed, resolve_key_from_config, resolve_key_spec, strip_extension, strip_extension_spec,
    unsupported_type_message, validate_mime_type, FilePreprocessor, PreprocessingConfig, PreprocessingResult,
};

verus! {

broadcast use vstd::string::group_string_axioms;

/// `num / den` rounded to the nearest integer, ties to the even one.
pub open spec fn rne_div(num: nat, den: nat) -> nat {
    let q = num / den;
    let r = num % den;
    if 2 * r > den || (2 * r == den && q % 2 == 1) {
        q + 1
    } else {
        q
    }
}

/// The number of binary digits of `n` (0 for 0).
pub open spec fn bit_len(n: nat) -> nat
    decreases n,
{
    if n == 0 {
        0
    } else {
        1 + bit_len(n / 2)
    }
}

/// `p` rounded to 53 significant binary digits, ties to even: the
/// significand of an `f64`.
pub open spec fn round53(p: nat) -> nat {
    if bit_len(p) <= 53 {
        p
    } else {
        let d = pow2((bit_len(p) - 53) as nat);
        rne_div(p, d) * d
    }
}

/// The least `k` from the given one on with `max * 2^k >= m` (at most 40).
pub open spec fn scale_exp(max: nat, m: nat, k: nat) -> nat
    decreases 40 - k,
{
    if k >= 40 || max * pow2(k) >= m {
        k
    } else {
        scale_exp(max, m, k + 1)
    }
}

/// `(side as f64 * (max as f64 / m as f64)).round() as u32` for
/// `0 < max < m`, in integers.  The quotient `max / m` lies in
/// `[2^-k, 2^(1-k))` for `k = scale_exp(max, m, 1)`; as an `f64` it is
/// `q / 2^e` with `e = 52 + k` and `q` the quotient scaled by `2^e`, rounded
/// to the nearest integer, ties to even.  The product is `side * q / 2^e`
/// with `side * q` rounded to 53 significant digits; `round` takes it to
/// the nearest integer, halves away from zero, and the cast saturates.
pub open spec fn scaled_side(side: nat, max: nat, m: nat) -> u32 {
    let e = 52 + scale_exp(max, m, 1);
    let q = rne_div(max * pow2(e), m);
    let v = (round53(side * q) + pow2((e - 1) as nat)) / pow2(e);
    if v > u32::MAX {
        u32::MAX
    } else {
        v as u32
    }
}

/// The size an image of `width` x `height` is shrunk to: when `max_dimension`
/// is set and a side exceeds it, both sides are scaled by
/// `max_dimension / max(width, height)` in `f64` arithmetic and rounded;
/// otherwise the image keeps its size (`None`).
pub open spec fn resize_spec(width: u32, height: u32, max_dimension: u32) -> Option<(u32, u32)> {
    if max_dimension > 0 && (width > max_dimension || height > max_dimension) {
        let m: nat = if width >= height { width as nat } else { height as nat };
        Some((
            scaled_side(width as nat, max_dimension as nat, m),
            scaled_side(height as nat, max_dimension as nat, m),
        ))
    } else {
        None
    }
}

proof fn lemma_pow2_facts()
    ensures
        pow2(32) == 0x1_0000_0000,
        pow2(53) == 0x20_0000_0000_0000,
        pow2(85) == 0x20_0000_0000_0000_0000_0000,
        pow2(128) == 0x1_0000_0000_0000_0000_0000_0000_0000_0000,
{
    lemma2_to64();
    lemma_pow2_adds(53, 32);
    lemma_pow2_adds(64, 64);
    lemma_pow2_adds(32, 21);
    lemma_pow2_adds(21, 32);
    assert(pow2(21) == 0x20_0000) by {
        lemma_pow2_adds(16, 5);
    }
}

fn pow2_u128(e: u32) -> (r: u128)
    requires
        e < 128,
    ensures
        r == pow2(e as nat),
{
    proof {
        lemma2_to64();
        lemma_pow2_facts();
    }
    let mut r: u128 = 1;
    let mut i: u32 = 0;
    while i < e
        invariant
            i <= e < 128,
            r == pow2(i as nat),
            pow2(128) == 0x1_0000_0000_0000_0000_0000_0000_0000_0000,
        decreases e - i,
    {
        proof {
            lemma_pow2_unfold((i + 1) as nat);
            lemma_pow2_strictly_increases((i + 1) as nat, 128);
        }
        r = r * 2;
        i += 1;
    }
    r
}

proof fn lemma_rne_bounds(num: nat, den: nat)
    requires
        den > 0,
    ensures
        rne_div(num, den) <= num / den + 1,
        rne_div(num, den) * den <= num + den,
        num / den <= num,
{
    lemma_fundamental_div_mod(num as int, den as int);
    let q = num / den;
    assert(q * den <= num) by (nonlinear_arith)
        requires
            num == den * q + num % den,
            num % den >= 0,
    ;
    assert((q + 1) * den == q * den + den) by (nonlinear_arith);
    assert(q <= num) by (nonlinear_arith)
        requires
            q * den <= num,
            den >= 1,
            q >= 0,
    ;
}

fn rne_div_u128(num: u128, den: u128) -> (r: u128)
    requires
        den > 0,
        num < u128::MAX,
    ensures
        r == rne_div(num as nat, den as nat),
{
    proof {
        lemma_rne_bounds(num as nat, den as nat);
    }
    let q = num / den;
    let rem = num % den;
    if rem > den - rem || (rem == den - rem && q % 2 == 1) {
        q + 1
    } else {
        q
    }
}

proof fn lemma_bit_len_bound(n: nat, k: nat)
    requires
        n < pow2(k),
    ensures
        bit_len(n) <= k,
    decreases k,
{
    if n > 0 {
        if k == 0 {
            lemma2_to64();
        } else {
            lemma_pow2_unfold(k);
            lemma_bit_len_bound(n / 2, (k - 1) as nat);
        }
    }
}

fn bit_len_u128(n: u128) -> (r: u32)
    ensures
        r == bit_len(n as nat),
{
    proof {
        lemma_pow2_facts();
        lemma_bit_len_bound(n as nat, 128);
    }
    let mut x = n;
    let mut c: u32 = 0;
    while x > 0
        invariant
            c + bit_len(x as nat) == bit_len(n as nat),
            bit_len(n as nat) <= 128,
        decreases x,
    {
        x = x / 2;
        c = c + 1;
    }
    c
}

proof fn lemma_scale_exp_step(max: nat, m: nat, k: nat)
    requires
        k < 40,
        max * pow2(k) < m,
    ensures
        scale_exp(max, m, k) == scale_exp(max, m, k + 1),
{
}

/// `(side as f64 * (max as f64 / m as f64)).round() as u32`, computed
/// exactly in integers.
fn scaled_side_exec(side: u32, max: u32, m: u32) -> (r: u32)
    requires
        0 < max < m,
    ensures
        r == scaled_side(side as nat, max as nat, m as nat),
{
    proof {
        lemma2_to64();
        lemma_pow2_facts();
    }
    let mut k: u32 = 1;
    let mut p: u128 = 2;
    assert((max as nat) * pow2(0) == max) by (nonlinear_arith)
        requires
            pow2(0) == 1,
    ;
    assert((max as nat) * 2 < 0x1_0000_0000_0000_0000);
    while (max as u128) * p < (m as u128)
        invariant
            0 < max < m,
            1 <= k <= 32,
            p == pow2(k as nat),
            p <= 0x1_0000_0000,
            (max as nat) * p < 0x1_0000_0000_0000_0000,
            (max as nat) * pow2((k - 1) as nat) < m,
            scale_exp(max as nat, m as nat, 1) == scale_exp(max as nat, m as nat, k as nat),
            pow2(32) == 0x1_0000_0000,
        decreases 32 - k,
    {
        proof {
            lemma_scale_exp_step(max as nat, m as nat, k as nat);
            assert(pow2(k as nat) < pow2(32)) by (nonlinear_arith)
                requires
                    (max as nat) * pow2(k as nat) < m,
                    max >= 1,
                    m < 0x1_0000_0000,
                    pow2(32) == 0x1_0000_0000,
            ;
            if k >= 32 {
                if k > 32 {
                    lemma_pow2_strictly_increases(32, k as nat);
                }
            }
            lemma_pow2_unfold((k + 1) as nat);
            if k + 1 < 32 {
                lemma_pow2_strictly_increases((k + 1) as nat, 32);
            }
            assert((max as nat) * (p * 2) < 0x1_0000_0000_0000_0000) by (nonlinear_arith)
                requires
                    max < 0x1_0000_0000,
                    p * 2 <= 0x1_0000_0000,
            ;
        }
        k = k + 1;
        p = p * 2;
    }
    let ghost kk = k as nat;
    assert(scale_exp(max as nat, m as nat, kk) == kk);
    let e: u32 = 52 + k;
    let pe = pow2_u128(e);
    proof {
        lemma_pow2_adds(53, (kk - 1) as nat);
        assert(53 + (kk - 1) == e);
        lemma_pow2_strictly_increases(e as nat, 85);
        assert((max as nat) * pow2(e as nat) < 0x1_0000_0000 * 0x20_0000_0000_0000_0000_0000) by (nonlinear_arith)
            requires
                max < 0x1_0000_0000,
                pow2(e as nat) < 0x20_0000_0000_0000_0000_0000,
        ;
    }
    let num = (max as u128) * pe;
    let q = rne_div_u128(num, m as u128);
    proof {
        lemma_rne_bounds(num as nat, m as nat);
        // num = max * 2^(k-1) * 2^53 < m * 2^53, so num / m < 2^53.
        assert((num as nat) < (m as nat) * pow2(53)) by (nonlinear_arith)
            requires
                num as nat == (max as nat) * pow2(e as nat),
                pow2(e as nat) == pow2(53) * pow2((kk - 1) as nat),
                (max as nat) * pow2((kk - 1) as nat) < m,
                pow2(53) > 0,
        ;
        assert((num as nat) / (m as nat) < pow2(53)) by (nonlinear_arith)
            requires
                (num as nat) < (m as nat) * pow2(53),
                m > 0,
        ;
        assert((side as nat) * (q as nat) < 0x20_0000_0000_0000_0000_0000) by (nonlinear_arith)
            requires
                side < 0x1_0000_0000,
                q <= 0x20_0000_0000_0000,
        ;
    }
    let prod = (side as u128) * q;
    let len = bit_len_u128(prod);
    proof {
        lemma_bit_len_bound(prod as nat, 85);
    }
    let p2: u128 = if len <= 53 {
        prod
    } else {
        let d = pow2_u128(len - 53);
        proof {
            lemma_rne_bounds(prod as nat, d as nat);
            lemma_pow2_strictly_increases((len - 53) as nat, 33);
            lemma_pow2_adds(32, 1);
        }
        let rq = rne_div_u128(prod, d);
        rq * d
    };
    proof {
        lemma_pow2_strictly_increases((e - 1) as nat, 85);
    }
    let half = pow2_u128(e - 1);
    let v = (p2 + half) / pe;
    if v > 0xffff_ffff {
        u32::MAX
    } else {
        v as u32
    }
}

/// The size an image is shrunk to, as `resize_spec` states it: the `f64`
/// computation `(side as f64 * (max_dimension as f64 / larger side as
/// f64)).round() as u32` for both sides, when a side exceeds a set maximum.
pub fn resize_dimensions(width: u32, height: u32, max_dimension: u32) -> (r: Option<(u32, u32)>)
    ensures
        r == resize_spec(width, height, max_dimension),
{
    if max_dimension > 0 && (width > max_dimension || height > max_dimension) {
        let m: u32 = if width >= height { width } else { height };
        Some((scaled_side_exec(width, max_dimension, m), scaled_side_exec(height, max_dimension, m)))
    } else {
        None
    }
}

/// The file name an image gets when converted to WebP: its base (or the
/// whole name when it has no extension to strip) followed by ".webp".
pub open spec fn webp_name_spec(file_name: Seq<char>) -> Seq<char> {
    match strip_extension_spec(file_name) {
        Some(base) => base + ".webp"@,
        None => file_name + ".webp"@,
    }
}

/// The name of the WebP rendering of `file_name`.
pub fn webp_file_name(file_name: &str) -> (r: String)
    ensures
        r@ == webp_name_spec(file_name@),
{
    let base = match strip_extension(file_name) {
        Some(b) => b,
        None => file_name,
    };
    let mut r = String::from_str(base);
    r.append(".webp");
    r
}

/// Full-featured local image preprocessor.
pub struct LocalFilePreprocessor {
    /// The configuration controlling resize, WebP conversion, MIME validation
    /// and encryption.
    pub config: PreprocessingConfig,
}

impl LocalFilePreprocessor {
    /// A preprocessor with the default configuration (max 512 px, WebP,
    /// standard image MIME types, no encryption).
    pub fn new() -> (p: Self)
        ensures
            p.config.max_dimension == 512,
            p.config.convert_to_webp,
            views(p.config.allowed_mime_types@) == super::default_image_types(),
            !p.config.encrypt_file,
            p.config.encryption_key_hex@ == Seq::<char>::empty(),
            p.config.env_encryption_key_hex@ == Seq::<char>::empty(),
    {
        LocalFilePreprocessor { config: PreprocessingConfig::default() }
    }

    /// A preprocessor with a custom configuration.
    pub fn with_config(config: PreprocessingConfig) -> (p: Self)
        ensures
            p.config == config,
    {
        LocalFilePreprocessor { config }
    }
}

impl Default for LocalFilePreprocessor {
    fn default() -> (p: Self)
        ensures
            views(p.config.allowed_mime_types@) == super::default_image_types(),
            !p.config.encrypt_file,
    {
        Self::new()
    }
}

/// The image that the local preprocessor encodes for a buffer: the decoded
/// image, resized to fit `max_dimension` when it exceeds it.
pub open spec fn processed_source(max_dimension: u32, buffer: Seq<u8>) -> ImageSource {
    let src = ImageSource::Bytes(buffer);
    match resize_spec(image_width_of(src), image_height_of(src), max_dimension) {
        Some((w, h)) => ImageSource::Resized(Box::new(src), w, h),
        None => src,
    }
}

/// What the local preprocessing pipeline makes of a file before any
/// encryption, for an allow-list, a maximum dimension and a choice of
/// output format: the encoded bytes with their content type and file name,
/// or the error's variant and message.  A type outside the allow-list is a
/// bad request; so is a buffer that does not read as an image.  The image is
/// resized to fit, then encoded as lossless WebP (named `{base}.webp`, typed
/// "image/webp") or, without WebP conversion, in the format guessed from its
/// own bytes (no format conversion) under its original name and type; a
/// failed encoding is an internal error.
pub open spec fn encoding_spec(
    allowed: Seq<Seq<char>>,
    max_dimension: u32,
    convert_to_webp: bool,
    buffer: Seq<u8>,
    content_type: Seq<char>,
    file_name: Seq<char>,
) -> Result<(Seq<u8>, Seq<char>, Seq<char>), (int, Seq<char>)> {
    if !mime_allowed(content_type, allowed) {
        Err((2, unsupported_type_message(content_type, allowed)))
    } else {
        match image_read_outcome(buffer) {
            Some((true, t)) => Err((2, "Failed to read image: "@ + t)),
            Some((false, t)) => Err((2, "Failed to decode image: "@ + t)),
            None => {
                let p = processed_source(max_dimension, buffer);
                if convert_to_webp {
                    match webp_lossless_of(p) {
                        Ok(b) => Ok((b, "image/webp"@, webp_name_spec(file_name))),
                        Err(t) => Err((5, "WebP encoding failed: "@ + t)),
                    }
                } else {
                    match own_format_encoding_of(p) {
                        Ok(b) => Ok((b, content_type, file_name)),
                        Err(t) => Err((5, "Image re-encode failed: "@ + t)),
                    }
                }
            },
        }
    }
}

/// The pipeline of `encoding_spec` under a configuration.
pub open spec fn local_encoding(
    config: PreprocessingConfig,
    buffer: Seq<u8>,
    content_type: Seq<char>,
    file_name: Seq<char>,
) -> Result<(Seq<u8>, Seq<char>, Seq<char>), (int, Seq<char>)> {
    encoding_spec(views(config.allowed_mime_types@), config.max_dimension, config.convert_to_webp, buffer,
        content_type, file_name)
}

/// The local preprocessor's outcome: the encoding of `local_encoding`, as
/// is, or, when the configuration asks for encryption, encrypted under the
/// configured key (typed "application/octet-stream", and decrypting back to
/// the encoding); an unusable key is its internal error.
pub open spec fn local_outcome_ok(
    config: PreprocessingConfig,
    key: Result<Seq<u8>, Seq<char>>,
    buffer: Seq<u8>,
    content_type: Seq<char>,
    file_name: Seq<char>,
    out: Result<(Seq<u8>, Seq<char>, Seq<char>, bool), (int, Seq<char>)>,
) -> bool {
    match local_encoding(config, buffer, content_type, file_name) {
        Err(e) => out == Err::<(Seq<u8>, Seq<char>, Seq<char>, bool), (int, Seq<char>)>(e),
        Ok((bytes, ty, name)) => if !config.encrypt_file {
            out == Ok::<(Seq<u8>, Seq<char>, Seq<char>, bool), (int, Seq<char>)>((bytes, ty, name, false))
        } else {
            match key {
                Err(m) => out == Err::<(Seq<u8>, Seq<char>, Seq<char>, bool), (int, Seq<char>)>((5, m)),
                Ok(k) => match out {
                    Ok((buf, ty2, name2, enc)) => {
                        &&& ty2 == "application/octet-stream"@
                        &&& name2 == name
                        &&& enc
                        &&& decrypt_spec(k, buf) == Ok::<Seq<u8>, Seq<char>>(bytes)
                        &&& buf.len() == bytes.len() + 28
                    },
                    Err(e) => encryption_failure(e, bytes.len()),
                },
            }
        },
    }
}

/// The bad request for a buffer that does not read as an image: "Failed to
/// read image: {text}" when the format guess failed, "Failed to decode
/// image: {text}" when decoding did.
pub fn read_failure_error(failure: ImageReadFailure) -> (e: AppError)
    ensures
        error_view(e) == match failure {
            ImageReadFailure::Read(t) => (2int, "Failed to read image: "@ + t@),
            ImageReadFailure::Decode(t) => (2int, "Failed to decode image: "@ + t@),
        },
{
    match failure {
        ImageReadFailure::Read(t) => {
            let mut m = String::from_str("Failed to read image: ");
            m.append(t.as_str());
            AppError::BadRequest(m)
        },
        ImageReadFailure::Decode(t) => {
            let mut m = String::from_str("Failed to decode image: ");
            m.append(t.as_str());
            AppError::BadRequest(m)
        },
    }
}

impl LocalFilePreprocessor {
    /// Builds the result of a successful encoding: encrypts it when the
    /// configuration asks for it.
    pub fn finish(&self, encoded: Vec<u8>, content_type: String, file_name: String) -> (r: Result<PreprocessingResult, AppError>)
        ensures
            self.config.encrypt_file ==> match r {
                Ok(p) => p.content_type@ == "application/octet-stream"@ && p.file_name@ == file_name@
                    && p.is_encrypted && (self.key_spec() matches Ok(k) && decrypt_spec(k, p.buffer@) == Ok::<Seq<u8>, Seq<char>>(encoded@))
                    && p.buffer@.len() == encoded@.len() + 28,
                Err(e) => match self.key_spec() {
                    Err(m) => error_view(e) == (5int, m),
                    Ok(_) => encryption_failure(error_view(e), encoded@.len()),
                },
            },
            !self.config.encrypt_file ==> (r matches Ok(p) && p.buffer@ == encoded@ && p.content_type@ == content_type@
                && p.file_name@ == file_name@ && !p.is_encrypted),
    {
        if self.config.encrypt_file {
            match self.encrypt(encoded.as_slice()) {
                Ok(encrypted) => Ok(PreprocessingResult {
                    buffer: encrypted,
                    content_type: String::from_str("application/octet-stream"),
                    file_name,
                    is_encrypted: true,
                }),
                Err(e) => Err(e),
            }
        } else {
            Ok(PreprocessingResult { buffer: encoded, content_type, file_name, is_encrypted: false })
        }
    }
}

impl FilePreprocessor for LocalFilePreprocessor {
    open spec fn key_spec(&self) -> Result<Seq<u8>, Seq<char>> {
        resolve_key_spec(self.config.encryption_key_hex@, self.config.env_encryption_key_hex@)
    }

    open spec fn outcome_spec(
        &self,
        buffer: Seq<u8>,
        content_type: Seq<char>,
        file_name: Seq<char>,
        out: Result<(Seq<u8>, Seq<char>, Seq<char>, bool), (int, Seq<char>)>,
    ) -> bool {
        local_outcome_ok(self.config, self.key_spec(), buffer, content_type, file_name, out)
    }

    /// Validates, decodes, resizes, re-encodes and optionally encrypts.
    fn preprocess(&self, buffer: &[u8], content_type: &str, file_name: &str) -> (r: Result<PreprocessingResult, AppError>)
    {
        if let Err(e) = validate_mime_type(content_type, self.config.allowed_mime_types.as_slice()) {
            return Err(e);
        }
        let img = match decode_image(buffer) {
            Ok(img) => img,
            Err(f) => return Err(read_failure_error(f)),
        };
        let processed = match resize_dimensions(image_width(&img), image_height(&img), self.config.max_dimension) {
            Some((w, h)) => resize_lanczos3(&img, w, h),
            None => img,
        };
        if self.config.convert_to_webp {
            let webp = match encode_webp_lossless(&processed) {
                Ok(b) => b,
                Err(t) => {
                    let mut m = String::from_str("WebP encoding failed: ");
                    m.append(t.as_str());
                    return Err(AppError::Internal(m));
                },
            };
            let name = webp_file_name(file_name);
            self.finish(webp, String::from_str("image/webp"), name)
        } else {
            let own = match encode_own_format(&processed) {
                Ok(b) => b,
                Err(t) => {
                    let mut m = String::from_str("Image re-encode failed: ");
                    m.append(t.as_str());
                    return Err(AppError::Internal(m));
                },
            };
            self.finish(own, String::from_str(content_type), String::from_str(file_name))
        }
    }

    fn resolve_encryption_key(&self) -> (r: Result<[u8; 32], AppError>) {
        let r = resolve_key_from_config(self.config.encryption_key_hex.as_str(), self.config.env_encryption_key_hex.as_str());
        assert(self.key_spec() == resolve_key_spec(self.config.encryption_key_hex@, self.config.env_encryption_key_hex@));
        r
    }
}

} // verus!
