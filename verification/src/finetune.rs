//! Per-download transfer tuning and its layering over queue defaults.
use vstd::prelude::*;
use crate::enums::{AllocStrategy, StreamPieceSelector};

verus! {

/// Transfer settings of a download; an unset field leaves aria2's own value.
#[derive(Clone, Copy, Debug, PartialEq, Eq, Structural)]
pub struct FineTune {
    /// aria2 `--split`: connections used to fetch a single download.
    pub connections_per_download: Option<u32>,
    /// aria2 `--max-connection-per-server`
    pub max_connections_per_server: Option<u32>,
    /// aria2 `--file-allocation`
    pub alloc_strategy: Option<AllocStrategy>,
    /// aria2 `--stream-piece-selector`
    pub stream_piece_selector: Option<StreamPieceSelector>,
    /// Retries after the first attempt; aria2 `--max-tries` is one more.
    pub max_retries: Option<u32>,
    /// aria2 `--retry-wait`, in seconds.
    pub retry_wait_seconds: Option<u32>,
}

/// The values aria2 itself uses, captured when the daemon starts; any of
/// them may be unknown.
#[derive(Clone, Copy, Debug, PartialEq, Eq, Structural)]
pub struct Aria2GlobalOptions {
    pub connections_per_download: Option<u32>,
    pub max_connections_per_server: Option<u32>,
    pub alloc_strategy: Option<AllocStrategy>,
    pub stream_piece_selector: Option<StreamPieceSelector>,
}

pub open spec fn unset_finetune() -> FineTune {
    FineTune {
        connections_per_download: None,
        max_connections_per_server: None,
        alloc_strategy: None,
        stream_piece_selector: None,
        max_retries: None,
        retry_wait_seconds: None,
    }
}

impl Default for FineTune {
    fn default() -> (r: Self)
        ensures
            r == unset_finetune(),
    {
        FineTune {
            connections_per_download: None,
            max_connections_per_server: None,
            alloc_strategy: None,
            stream_piece_selector: None,
            max_retries: None,
            retry_wait_seconds: None,
        }
    }
}

impl Default for Aria2GlobalOptions {
    fn default() -> (r: Self)
        ensures
            r.connections_per_download is None,
            r.max_connections_per_server is None,
            r.alloc_strategy is None,
            r.stream_piece_selector is None,
    {
        Aria2GlobalOptions {
            connections_per_download: None,
            max_connections_per_server: None,
            alloc_strategy: None,
            stream_piece_selector: None,
        }
    }
}

pub open spec fn or_else<T>(over: Option<T>, base: Option<T>) -> Option<T> {
    if over is Some {
        over
    } else {
        base
    }
}

/// `base` with every field that `over` sets replaced by `over`'s value.
pub open spec fn overridden(base: FineTune, over: FineTune) -> FineTune {
    FineTune {
        connections_per_download: or_else(
            over.connections_per_download,
            base.connections_per_download,
        ),
        max_connections_per_server: or_else(
            over.max_connections_per_server,
            base.max_connections_per_server,
        ),
        alloc_strategy: or_else(over.alloc_strategy, base.alloc_strategy),
        stream_piece_selector: or_else(over.stream_piece_selector, base.stream_piece_selector),
        max_retries: or_else(over.max_retries, base.max_retries),
        retry_wait_seconds: or_else(over.retry_wait_seconds, base.retry_wait_seconds),
    }
}

impl FineTune {
    pub fn is_unset(&self) -> (r: bool)
        ensures
            r == (*self == unset_finetune()),
    {
        self.connections_per_download.is_none() && self.max_connections_per_server.is_none()
            && self.alloc_strategy.is_none() && self.stream_piece_selector.is_none()
            && self.max_retries.is_none() && self.retry_wait_seconds.is_none()
    }

    /// Applies only the values that `overrides` sets explicitly, leaving every
    /// other field at its queue-provided default.
    pub fn apply_override(&mut self, overrides: FineTune)
        ensures
            *final(self) == overridden(*old(self), overrides),
    {
        if overrides.connections_per_download.is_some() {
            self.connections_per_download = overrides.connections_per_download;
        }
        if overrides.max_connections_per_server.is_some() {
            self.max_connections_per_server = overrides.max_connections_per_server;
        }
        if overrides.alloc_strategy.is_some() {
            self.alloc_strategy = overrides.alloc_strategy;
        }
        if overrides.stream_piece_selector.is_some() {
            self.stream_piece_selector = overrides.stream_piece_selector;
        }
        if overrides.max_retries.is_some() {
            self.max_retries = overrides.max_retries;
        }
        if overrides.retry_wait_seconds.is_some() {
            self.retry_wait_seconds = overrides.retry_wait_seconds;
        }
    }
}

/// Overriding with nothing changes nothing, and overriding twice is the same
/// as overriding once with the second override layered over the first.
pub proof fn law_override_identity_and_layering(base: FineTune, a: FineTune, b: FineTune)
    ensures
        overridden(base, unset_finetune()) == base,
        overridden(overridden(base, a), b) == overridden(base, overridden(a, b)),
        overridden(base, a) == a <== (a.connections_per_download is Some
            && a.max_connections_per_server is Some && a.alloc_strategy is Some
            && a.stream_piece_selector is Some && a.max_retries is Some
            && a.retry_wait_seconds is Some),
{
}

} // verus!
