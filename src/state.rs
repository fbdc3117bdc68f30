use vstd::prelude::*;
use std::sync::Arc;
use std::sync::atomic::{AtomicBool, Ordering};
use crate::error::ConvertError;
use base64::Engine;

verus! {

/// What base64 (standard alphabet, padded) makes of `bytes`.
pub uninterp spec fn base64_of(bytes: Seq<u8>) -> Seq<char>;

/// Relies on `base64::engine::general_purpose::STANDARD.encode`: the
/// standard padded encoding, four characters per started group of three
/// bytes. It panics when that length overflows `usize`.
#[verifier::external_body]
fn base64_encode(bytes: &[u8]) -> (r: String)
    requires
        4 * ((bytes@.len() + 2) / 3) <= usize::MAX,
    ensures
        r@ == base64_of(bytes@),
        r@.len() == 4 * ((bytes@.len() + 2) / 3),
{
    base64::engine::general_purpose::STANDARD.encode(bytes)
}

/// An encoded animation handed back to the caller: embedded as a data URL,
/// with its size in bytes.
#[derive(Debug, Clone)]
pub struct GifResult {
    pub data_url: String,
    pub file_size: u64,
}

/// The data URL prefix of an animated image.
pub open spec fn gif_url_prefix() -> Seq<char> {
    "data:image/gif;base64,"@
}

/// The data URL prefix of a thumbnail.
pub open spec fn bmp_url_prefix() -> Seq<char> {
    "data:image/bmp;base64,"@
}

/// A result from already encoded text: the URL is the image prefix followed
/// by `encoded`, the size is `size`.
pub fn gif_result_from_encoded(encoded: &str, size: u64) -> (r: GifResult)
    ensures
        r.data_url@ == gif_url_prefix() + encoded@,
        r.file_size == size,
{
    GifResult { data_url: String::from_str("data:image/gif;base64,").concat(encoded), file_size: size }
}

/// The result for encoded animation bytes.
pub fn gif_result(data: &Vec<u8>) -> (r: GifResult)
    requires
        4 * ((data@.len() + 2) / 3) <= usize::MAX,
    ensures
        r.data_url@ == gif_url_prefix() + base64_of(data@),
        r.file_size == data@.len(),
{
    let encoded = base64_encode(data.as_slice());
    gif_result_from_encoded(encoded.as_str(), data.len() as u64)
}

/// A thumbnail's data URL from already encoded text.
pub fn bmp_url_from_encoded(encoded: &str) -> (r: String)
    ensures
        r@ == bmp_url_prefix() + encoded@,
{
    String::from_str("data:image/bmp;base64,").concat(encoded)
}

/// A thumbnail's data URL.
pub fn bmp_url(image: &Vec<u8>) -> (r: String)
    requires
        4 * ((image@.len() + 2) / 3) <= usize::MAX,
    ensures
        r@ == bmp_url_prefix() + base64_of(image@),
{
    let encoded = base64_encode(image.as_slice());
    bmp_url_from_encoded(encoded.as_str())
}

/// Cancellation and the last run's results, owned by the application and
/// passed to the operations that need them.
///
/// The results slot is emptied when a run starts and filled only by a run
/// that completed without being cancelled, so later save, copy or drag
/// operations never see a partial result.
pub struct ConversionState {
    /// The current run's cancellation flag, shared with its workers.
    pub cancelled: Arc<AtomicBool>,
    gif_data_list: Vec<Vec<u8>>,
}

impl ConversionState {
    /// The encoded animations of the last completed run (one in merge mode,
    /// one per segment in split mode).
    pub closed spec fn results(&self) -> Seq<Seq<u8>> {
        self.gif_data_list@.map_values(|d: Vec<u8>| d@)
    }

    /// No run yet: nothing stored.
    pub fn new() -> (r: ConversionState)
        ensures
            r.results() == Seq::<Seq<u8>>::empty(),
    {
        let r = ConversionState { cancelled: Arc::new(AtomicBool::new(false)), gif_data_list: Vec::new() };
        assert(r.results() =~= Seq::<Seq<u8>>::empty());
        r
    }

    /// Starts a run: installs a fresh cancellation flag, which is returned
    /// for the run's workers, and empties the results slot.
    pub fn begin_run(&mut self) -> (r: Arc<AtomicBool>)
        ensures
            final(self).results() == Seq::<Seq<u8>>::empty(),
    {
        let flag = Arc::new(AtomicBool::new(false));
        self.cancelled = flag.clone();
        self.gif_data_list = Vec::new();
        assert(self.results() =~= Seq::<Seq<u8>>::empty());
        flag
    }

    /// Requests cancellation of the current run.
    pub fn cancel(&self) {
        self.cancelled.store(true, Ordering::Relaxed);
    }

    /// Ends a run. A run that was cancelled (`cancelled` is the flag as
    /// read after the run) reports `Cancelled` and a failed run its error,
    /// both leaving the slot as it was; a completed run stores its
    /// animations and returns one result per animation.
    pub fn finish_run(&mut self, outcome: Result<Vec<Vec<u8>>, ConvertError>, cancelled: bool) -> (r: Result<
        Vec<GifResult>,
        ConvertError,
    >)
        requires
            outcome matches Ok(list) ==> forall|i: int|
                0 <= i < list@.len() ==> 4 * ((#[trigger] list@[i]@.len() + 2) / 3) <= usize::MAX,
        ensures
            cancelled ==> (r matches Err(e) && e is Cancelled) && final(self).results() == old(self).results(),
            !cancelled ==> match outcome {
                Err(e) => r == Err::<Vec<GifResult>, ConvertError>(e) && final(self).results() == old(
                    self,
                ).results(),
                Ok(list) => r matches Ok(gifs) && {
                    &&& final(self).results() == list@.map_values(|d: Vec<u8>| d@)
                    &&& gifs@.len() == list@.len()
                    &&& forall|i: int|
                        0 <= i < gifs@.len() ==> {
                            &&& #[trigger] gifs@[i].data_url@ == gif_url_prefix() + base64_of(list@[i]@)
                            &&& gifs@[i].file_size == list@[i]@.len()
                        }
                },
            },
    {
        if cancelled {
            return Err(ConvertError::Cancelled);
        }
        match outcome {
            Err(e) => Err(e),
            Ok(list) => {
                let mut gifs: Vec<GifResult> = Vec::new();
                let mut i: usize = 0;
                while i < list.len()
                    invariant
                        i <= list@.len(),
                        gifs@.len() == i,
                        forall|j: int|
                            0 <= j < list@.len() ==> 4 * ((#[trigger] list@[j]@.len() + 2) / 3) <= usize::MAX,
                        forall|j: int|
                            0 <= j < i ==> {
                                &&& #[trigger] gifs@[j].data_url@ == gif_url_prefix() + base64_of(list@[j]@)
                                &&& gifs@[j].file_size == list@[j]@.len()
                            },
                    decreases list@.len() - i,
                {
                    gifs.push(gif_result(&list[i]));
                    i = i + 1;
                }
                self.gif_data_list = list;
                Ok(gifs)
            },
        }
    }

    /// The first stored animation, if any.
    pub fn first_result(&self) -> (r: Option<&Vec<u8>>)
        ensures
            self.results().len() == 0 ==> r is None,
            self.results().len() > 0 ==> (r matches Some(d) && d@ == self.results()[0]),
    {
        if self.gif_data_list.len() == 0 {
            None
        } else {
            Some(&self.gif_data_list[0])
        }
    }

    /// Every stored animation.
    pub fn all_results(&self) -> (r: &Vec<Vec<u8>>)
        ensures
            r@.map_values(|d: Vec<u8>| d@) == self.results(),
    {
        &self.gif_data_list
    }
}

} // verus!
