//! File storage: encryption, preprocessing, keys and URLs.
pub mod file_preprocess;
pub mod image_preprocessing;
pub mod storage_types;
pub mod storage_util;
pub mod localstorage;
pub mod cloud;
