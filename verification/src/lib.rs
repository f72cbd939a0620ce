//! The decisions of a Stratum mining proxy: which jobs are declared upstream,
//! which shares are let through, how messages are relayed, when the program
//! replaces itself. Sockets, timers, tasks and locks live outside this crate;
//! they hand in what happened and carry out what is decided here.
pub mod auto_update;
pub mod chain;
pub mod ingress;
pub mod jd_client;
pub mod mining;
pub mod share_accounter;
pub mod shared;
pub mod shares_monitor;
pub mod text;
pub mod translator;
