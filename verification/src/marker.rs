//! `Send`/`Sync` bounds that evaporate on wasm.
//!
//! libdatachannel fires callbacks from its own network threads, so every
//! callback it takes must be `Send + Sync`; browser objects are
//! thread-affine and ask for nothing. Callbacks are bounded with these
//! markers, so the bound is written once. This build is the native one,
//! where they alias the real bounds.
use vstd::prelude::*;

verus! {

/// `Send`, except on wasm32 where it is no constraint at all.
pub trait WasmNotSend: Send {}

impl<T: Send + ?Sized> WasmNotSend for T {}

/// `Sync`, except on wasm32 where it is no constraint at all.
pub trait WasmNotSync: Sync {}

impl<T: Sync + ?Sized> WasmNotSync for T {}

} // verus!
