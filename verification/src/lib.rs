//! Process-discovery and remote-module-injection engine.
//!
//! The library holds the verified decision logic of the engine: growing the
//! identifier buffer during enumeration, building the name-to-identifier
//! index, resolving a target process by name, and sequencing the remote
//! injection protocol stage by stage. The operating-system calls themselves
//! (opening processes, allocating and writing remote memory, spawning remote
//! threads) are effects that an unverified driver performs; it feeds each
//! call's outcome back to the verified state machines defined here.

pub mod enumerate;
pub mod index;
pub mod inject;
pub mod level;

pub use inject::Action;
pub use inject::Cause;
pub use inject::Event;
pub use inject::Injection;
pub use inject::LOAD_WAIT_MILLIS;
pub use inject::Stage;
pub use inject::StageFailure;
pub use inject::Step;

pub use enumerate::ENUM_ATTEMPTS;
pub use enumerate::EnumPlan;
pub use enumerate::EnumStep;
pub use enumerate::INITIAL_CAPACITY;
pub use enumerate::discard_zero_slots;

pub use index::ProcessNameIndex;
pub use index::ProcessRecord;
pub use index::ResolveError;
pub use index::find_process_by_name;
pub use level::Level;
pub use level::u8_to_level;
