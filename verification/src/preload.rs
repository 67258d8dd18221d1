//! The one track that may wait, decoded and paused, to follow the current
//! one without a gap.
use crate::error::{AppError, ErrorKind};
use vstd::prelude::*;
use vstd::string::*;

verus! {

/// Holds at most one preloaded sink together with the path of its track.
///
/// Sink and path are stored and taken as a pair, so neither is ever there
/// without the other.
pub struct PreloadManager<S> {
    pending: Option<(S, String)>,
}

impl<S> View for PreloadManager<S> {
    type V = Option<(S, Seq<char>)>;

    closed spec fn view(&self) -> Option<(S, Seq<char>)> {
        match self.pending {
            Some((sink, path)) => Some((sink, path@)),
            None => None,
        }
    }
}

/// `taken` is the pair that `held` describes.
pub open spec fn hands_out<S>(taken: Option<(S, String)>, held: Option<(S, Seq<char>)>) -> bool {
    match held {
        Some((sink, path)) => taken matches Some((s, p)) && s == sink && p@ == path,
        None => taken is None,
    }
}

/// The detail of the error of a swap with nothing preloaded.
pub open spec fn nothing_preloaded_detail() -> Seq<char> {
    "No preloaded track available"@
}

impl<S> PreloadManager<S> {
    pub fn new() -> (manager: Self)
        ensures
            manager@ is None,
    {
        PreloadManager { pending: None }
    }

    /// Stores a preloaded sink and its path in the place of whatever waited.
    pub fn set(&mut self, sink: S, path: String)
        ensures
            final(self)@ == Some((sink, path@)),
    {
        self.pending = Some((sink, path));
    }

    /// Takes the preloaded sink and its path, leaving nothing.
    pub fn take(&mut self) -> (taken: Option<(S, String)>)
        ensures
            hands_out(taken, old(self)@),
            final(self)@ is None,
    {
        let mut taken: Option<(S, String)> = None;
        std::mem::swap(&mut self.pending, &mut taken);
        taken
    }

    /// Takes the preloaded sink and its path for a swap.
    ///
    /// Fails with an `Audio` error exactly if nothing is preloaded.
    pub fn take_for_swap(&mut self) -> (taken: Result<(S, String), AppError>)
        ensures
            final(self)@ is None,
            match old(self)@ {
                Some((sink, path)) => taken matches Ok((s, p)) && s == sink && p@ == path,
                None => taken is Err && taken->Err_0.spec_kind() == ErrorKind::Audio
                    && taken->Err_0.detail() == nothing_preloaded_detail(),
            },
    {
        match self.take() {
            Some(pair) => Ok(pair),
            None => Err(AppError::Audio(String::from_str("No preloaded track available"))),
        }
    }

    pub fn has_preloaded(&self) -> (waiting: bool)
        ensures
            waiting == (self@ is Some),
    {
        self.pending.is_some()
    }

    /// Drops what waits.
    pub fn clear(&mut self)
        ensures
            final(self)@ is None,
    {
        self.pending = None;
    }
}

} // verus!
