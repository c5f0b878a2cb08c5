//! A reversible string obfuscation library: plaintext is prefixed with a
//! random salt rendered as hexadecimal text, masked by XOR against a
//! repeating key, and carried as standard padded base64 text.

pub mod base64code;
pub mod crypter;
pub mod entropy;
pub mod hexcode;
pub mod textenc;
pub mod xor;
