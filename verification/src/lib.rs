//! Signals between threads, and state machines that watch each other
//! through them.
//!
//! A signal has one writer, the `Source`, and any number of readers, the
//! `Sink`s. The Source keeps two slots for its value: it writes to the one
//! and publishes it by pointing the shared pointer at it, while readers go
//! on reading the other for as long as they hold it. Nothing is copied on
//! the way unless asked for, and nobody waits for anybody.
//!
//! - `signal` holds the plain pair, which publishes unconditionally.
//! - `signal::sync` holds the pair with handshake: the Source publishes
//!   nothing new until every Sink has seen what was published last.
//! - `signal::sync::protocol` states the handshake over plain values and
//!   proves what it guarantees.
//! - `state` holds state machines whose transitions may depend on the
//!   state that other machines report through their signals.
//!
//! What the Source and the Sinks share changes under shared references, on
//! any thread, at any time. No contract speaks of it. The contracts say
//! what each side owns and decides: what the Source has in its slots after
//! each call, and what each decision comes to for every value that may be
//! observed.
pub mod signal;
pub mod state;
