//! Decoding Morse code carried by an audible tone or a digital pin, and
//! encoding text as Morse code.
//!
//! The receiving pipeline takes one tone decision per detection window
//! (`window`), turns the decisions into timed edges with debouncing and a
//! message timeout (`detector`), feeds the edges to a Morse decoder and
//! hands out previews and finished messages (`receiver`, `message`). The
//! same for a digital pin read once per millisecond (`gpio`). Around it:
//! written Morse code and keyed tone sequences (`morse`), run-length reading
//! of a binarized signal (`runs`), the transcript of a half-duplex session
//! (`transcript`), and the commands and relaying of a chat bridge
//! (`command`, `bridge`).
pub mod bridge;
pub mod command;
pub mod detector;
pub mod gpio;
pub mod message;
pub mod morse;
pub mod receiver;
pub mod runs;
pub mod text;
pub mod transcript;
pub mod window;
