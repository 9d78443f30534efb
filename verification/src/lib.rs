pub mod cycle;
pub mod error;
pub mod game;
pub mod image;
pub mod keys;
pub mod latch;
pub mod latency;
pub mod memory;
pub mod rooms;
pub mod rules;
pub mod settings;
pub mod state;
pub mod text;
pub mod watch;

pub use cycle::Signals;
pub use error::Error;
pub use latch::Latch;
pub use latency::LatencyWindow;
pub use memory::{MemoryWatcher, Width};
pub use rules::{evaluate, split, Category, Fired, Shape};
pub use settings::Settings;
pub use state::SNESState;
