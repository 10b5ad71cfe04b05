//! Two ways to keep a single value outside the usual scope-bound lifetime:
//! [`man::Man`], a heap handle that its holder releases by hand, and
//! [`fob::Fob`], the bookkeeping of a value that lives in a shared mapping
//! of a file.
pub mod fob;
pub mod man;
