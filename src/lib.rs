//! A language-server launch adapter for the Zed editor: it locates the
//! `mozuku-lsp` executable and shapes the initialization options that the
//! server expects on its startup handshake.
pub mod extension;
pub mod host;
pub mod json;
