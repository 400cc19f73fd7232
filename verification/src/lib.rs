//! A small calculator and text-utility library.
//!
//! `calculator` offers integer arithmetic; `string_utils` offers
//! character-wise string reversal, a normalized palindrome test, and a
//! whitespace-delimited word count.

pub mod calculator;
pub mod string_utils;
