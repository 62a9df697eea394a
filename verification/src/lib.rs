//! Driver logic for character LCD modules that speak the HD44780 command set,
//! over eight or four data lines.
//!
//! The crate never touches hardware. Every operation is turned into
//! elementary actions on the control and data lines, and the caller performs
//! them one by one, reporting back what the busy line read when asked to
//! sample it:
//!
//! ```text
//! let mut lcd = Lcd::new(BusMode::FourBit);
//! lcd.set_str(b"hello");
//! while let Some(action) = lcd.next_action() {
//!     match action {
//!         Action::SampleBusy => lcd.busy_sampled(read_busy_line()),
//!         other => perform(other),
//!     }
//! }
//! ```
//!
//! - `config`: the display attributes and the bus width
//! - `instruction`: the instruction encoder
//! - `transport`: what moving one byte over the bus takes, as actions
//! - `program`: the steps of the power-on sequence and of writing a text
//! - `machine`: the driver's states and transitions
//! - `lcd`: the driver
//! - `session`: what a caller who plays the driver is handed
//! - `registers`: what a program does to the attributes the module keeps

pub mod config;
pub mod instruction;
pub mod transport;
pub mod program;
pub mod machine;
pub mod lcd;
pub mod session;
pub mod registers;
