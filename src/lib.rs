//! A CHIP-8 virtual machine whose instruction semantics are stated as
//! contracts over a mathematical model of the machine and proved, together
//! with the tic-tac-toe grid logic and players of the accompanying game.

pub mod display;
pub mod grid;
pub mod instruction;
pub mod keypad;
pub mod laws;
pub mod machine;
pub mod player;
mod rng;
pub mod timer;

pub use display::{Display, DisplayState, SCREEN_HEIGHT, SCREEN_SIZE, SCREEN_WIDTH};
pub use grid::{GameStatus, Grid, GridData, Symbol};
pub use instruction::Instruction;
pub use keypad::{key_to_string, Key, KeyboardBlockerState};
pub use machine::{Chip8, ExecutionError, MachineState, RAM_SIZE, STACK_SIZE};
pub use player::{HumanPlayer, MiniMaxAI, MouseEvent, PlayerProps, PlayerType};
pub use timer::Timer;
