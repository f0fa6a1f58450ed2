//! Shared textures: image files of the texture folder that egui loads, one
//! after another, until every one has either loaded or failed.

use std::sync::Arc;
use vstd::prelude::*;
use vstd::string::*;
use egui::{ColorImage, Context};

verus! {

/// `egui::Context`, carried through without looking inside.
#[verifier::external_type_specification]
#[verifier::external_body]
pub struct ExContext(Context);

/// `egui::ColorImage`, a decoded image, carried through without looking inside.
#[verifier::external_type_specification]
#[verifier::external_body]
pub struct ExColorImage(ColorImage);

/// How far the loading of one image is.
#[derive(Clone, Copy, Debug, PartialEq, Eq, Structural)]
pub enum LoadProgress {
    Pending,
    Done,
    Error,
}

/// What one attempt to load an image gave.
pub enum ImageLoad {
    /// The image is decoded.
    Ready(Arc<ColorImage>),
    /// The image is still loading.
    Pending,
    /// The image cannot be loaded.
    Failed,
}

/// `egui::Context::try_load_image` with the default size hint. What it gives
/// depends on the files on disk and on the loaders' progress; nothing is
/// stated of it.
#[verifier::external_body]
fn try_load_image(ctx: &Context, uri: &str) -> (r: ImageLoad) {
    match ctx.try_load_image(uri, egui::load::SizeHint::default()) {
        Ok(egui::load::ImagePoll::Ready { image }) => ImageLoad::Ready(image),
        Ok(egui::load::ImagePoll::Pending { .. }) => ImageLoad::Pending,
        Err(_) => ImageLoad::Failed,
    }
}

/// One image file of the texture folder.
pub struct LoadEntry {
    /// `file://` followed by the file's absolute path.
    pub uri: String,
    pub file_name: String,
    /// The decoded image, until it is collected.
    pub data: Option<Arc<ColorImage>>,
    pub progress: LoadProgress,
}

/// A decoded image and the name of its file.
pub struct LoadResult {
    pub file_name: String,
    pub data: Arc<ColorImage>,
}

/// The entry after a load attempt that gave `outcome`.
pub open spec fn recorded(e: LoadEntry, outcome: ImageLoad) -> LoadEntry {
    match outcome {
        ImageLoad::Ready(image) => LoadEntry { data: Some(image), progress: LoadProgress::Done, ..e },
        ImageLoad::Pending => e,
        ImageLoad::Failed => LoadEntry { progress: LoadProgress::Error, ..e },
    }
}

/// `after` is `before` after one load attempt, whatever it gave.
pub open spec fn attempted(before: LoadEntry, after: LoadEntry) -> bool {
    exists|outcome: ImageLoad| after == recorded(before, outcome)
}

/// An entry whose loading has ended, well or not.
pub open spec fn settled(e: LoadEntry) -> bool {
    !(e.progress is Pending)
}

/// The results that collecting takes from `entries`: one for each entry that
/// holds an image, in order.
pub open spec fn collect_results(entries: Seq<LoadEntry>) -> Seq<LoadResult>
    decreases entries.len(),
{
    if entries.len() == 0 {
        Seq::empty()
    } else {
        let rest = collect_results(entries.drop_last());
        let e = entries.last();
        match e.data {
            Some(image) => rest.push(LoadResult { file_name: e.file_name, data: image }),
            None => rest,
        }
    }
}

/// `after` is `before` once its image, if any, was collected: the image is
/// gone and so is the file name that went with it.
pub open spec fn collected_entry(before: LoadEntry, after: LoadEntry) -> bool {
    &&& after.uri == before.uri
    &&& after.progress == before.progress
    &&& after.data is None
    &&& before.data is Some ==> after.file_name@ == Seq::<char>::empty()
    &&& before.data is None ==> after.file_name == before.file_name
}

pub open spec fn collected_entries(before: Seq<LoadEntry>, after: Seq<LoadEntry>) -> bool {
    &&& after.len() == before.len()
    &&& forall|i: int| 0 <= i < before.len() ==> #[trigger] collected_entry(before[i], after[i])
}

/// Every entry of `after` is the entry of `before` at its place, possibly
/// after load attempts; an entry that had settled stayed as it was.
pub open spec fn advanced(before: Seq<LoadEntry>, after: Seq<LoadEntry>) -> bool {
    &&& after.len() == before.len()
    &&& forall|i: int| 0 <= i < before.len() ==> {
        &&& (#[trigger] after[i]).uri == before[i].uri
        &&& after[i].file_name == before[i].file_name
        &&& settled(before[i]) ==> after[i] == before[i]
        &&& (after[i] == before[i] || attempted(before[i], after[i]))
    }
}

impl LoadEntry {
    /// A pending entry for the file `file_name` at `absolute_path`.
    pub fn new(file_name: String, absolute_path: &str) -> (e: Self)
        ensures
            e.uri@ == "file://"@ + absolute_path@,
            e.file_name == file_name,
            e.data is None,
            e.progress is Pending,
    {
        let mut uri: String = String::from_str("file://");
        uri.append(absolute_path);
        LoadEntry { uri, file_name, data: None, progress: LoadProgress::Pending }
    }

    /// Whether the image is still loading.
    pub fn pending(&self) -> (r: bool)
        ensures
            r == !settled(*self),
    {
        self.progress == LoadProgress::Pending
    }

    /// Takes note of what a load attempt gave.
    pub fn record(&mut self, outcome: ImageLoad)
        ensures
            *final(self) == recorded(*old(self), outcome),
    {
        match outcome {
            ImageLoad::Ready(image) => {
                self.data = Some(image);
                self.progress = LoadProgress::Done;
            },
            ImageLoad::Pending => {},
            ImageLoad::Failed => {
                self.progress = LoadProgress::Error;
            },
        }
    }

    /// Asks egui for the image once.
    pub fn load(&mut self, ctx: &Context)
        ensures
            attempted(*old(self), *final(self)),
    {
        let outcome = try_load_image(ctx, self.uri.as_str());
        let ghost o = outcome;
        self.record(outcome);
        assert(*final(self) == recorded(*old(self), o));
    }

    /// Takes the image out of the entry, with its file name.
    fn take_result(&mut self) -> (r: Option<LoadResult>)
        ensures
            collected_entry(*old(self), *final(self)),
            old(self).data is None ==> r is None,
            old(self).data is Some ==> r == Some(LoadResult {
                file_name: old(self).file_name,
                data: old(self).data->0,
            }),
    {
        match self.data.take() {
            Some(image) => {
                let mut name: String = String::new();
                core::mem::swap(&mut name, &mut self.file_name);
                Some(LoadResult { file_name: name, data: image })
            },
            None => None,
        }
    }
}

/// The images of the texture folder.
pub struct TextureLoader {
    pub entries: Vec<LoadEntry>,
}

impl TextureLoader {
    /// A loader of the given entries.
    pub fn new(entries: Vec<LoadEntry>) -> (t: Self)
        ensures
            t.entries@ == entries@,
    {
        TextureLoader { entries }
    }

    /// Asks egui for each pending image in order, and stops at the first one
    /// still loading. When every image has loaded or failed, the loaded ones
    /// are collected and come back.
    pub fn load_all(&mut self, ctx: &Context) -> (r: Option<Vec<LoadResult>>)
        ensures
            r is None ==> {
                &&& advanced(old(self).entries@, final(self).entries@)
                &&& exists|k: int| 0 <= k < final(self).entries@.len() && {
                    &&& !settled(#[trigger] final(self).entries@[k])
                    &&& forall|j: int| 0 <= j < k ==> settled(#[trigger] final(self).entries@[j])
                    &&& forall|j: int| k < j < final(self).entries@.len() ==>
                        #[trigger] final(self).entries@[j] == old(self).entries@[j]
                }
            },
            r is Some ==> exists|mid: Seq<LoadEntry>| {
                &&& advanced(old(self).entries@, mid)
                &&& forall|j: int| 0 <= j < mid.len() ==> settled(#[trigger] mid[j])
                &&& collected_entries(mid, final(self).entries@)
                &&& r->0@ == collect_results(mid)
            },
    {
        let n: usize = self.entries.len();
        let mut i: usize = 0;
        while i < n
            invariant
                n == self.entries@.len(),
                n == old(self).entries@.len(),
                i <= n,
                advanced(old(self).entries@, self.entries@),
                forall|j: int| 0 <= j < i ==> settled(#[trigger] self.entries@[j]),
                forall|j: int| i <= j < n ==> #[trigger] self.entries@[j] == old(self).entries@[j],
            decreases n - i,
        {
            if self.entries[i].pending() {
                let ghost before = self.entries@;
                self.entries[i].load(ctx);
                proof {
                    assert forall|j: int| 0 <= j < n && j != i implies #[trigger] self.entries@[j] == before[j] by {}
                }
            }
            if self.entries[i].pending() {
                return None;
            }
            i = i + 1;
        }
        let ghost mid = self.entries@;
        let results = self.collect();
        Some(results)
    }

    /// Takes every loaded image out, in order, with its file name.
    pub fn collect(&mut self) -> (r: Vec<LoadResult>)
        ensures
            collected_entries(old(self).entries@, final(self).entries@),
            r@ == collect_results(old(self).entries@),
    {
        let n: usize = self.entries.len();
        let mut results: Vec<LoadResult> = Vec::new();
        let mut i: usize = 0;
        while i < n
            invariant
                n == self.entries@.len(),
                n == old(self).entries@.len(),
                i <= n,
                forall|j: int| 0 <= j < i ==> #[trigger] collected_entry(old(self).entries@[j], self.entries@[j]),
                forall|j: int| i <= j < n ==> #[trigger] self.entries@[j] == old(self).entries@[j],
                results@ == collect_results(old(self).entries@.take(i as int)),
            decreases n - i,
        {
            let taken = self.entries[i].take_result();
            proof {
                assert(old(self).entries@.take(i + 1).drop_last() =~= old(self).entries@.take(i as int));
            }
            match taken {
                Some(result) => results.push(result),
                None => {},
            }
            i = i + 1;
        }
        assert(old(self).entries@.take(n as int) =~= old(self).entries@);
        results
    }
}

/// The entries that hold an image, in order.
pub open spec fn loaded_entries(entries: Seq<LoadEntry>) -> Seq<LoadEntry> {
    entries.filter(|e: LoadEntry| e.data is Some)
}

/// Collecting gives one result for each entry that holds an image, in the
/// entries' order: as many results as such entries, the `i`-th carrying the
/// file name and the image of the `i`-th such entry.
pub proof fn lemma_collect_one_per_image(entries: Seq<LoadEntry>)
    ensures
        collect_results(entries).len() == loaded_entries(entries).len(),
        forall|i: int| 0 <= i < loaded_entries(entries).len() ==> {
            &&& (#[trigger] collect_results(entries)[i]).file_name == loaded_entries(entries)[i].file_name
            &&& collect_results(entries)[i].data == loaded_entries(entries)[i].data->0
        },
    decreases entries.len(),
{
    reveal(Seq::filter);
    if entries.len() > 0 {
        lemma_collect_one_per_image(entries.drop_last());
        assert(loaded_entries(entries) == {
            let rest = loaded_entries(entries.drop_last());
            if entries.last().data is Some { rest.push(entries.last()) } else { rest }
        });
    }
}

/// Collecting takes every image: collecting again gives nothing.
pub proof fn lemma_collect_twice_gives_nothing(before: Seq<LoadEntry>, after: Seq<LoadEntry>)
    requires
        collected_entries(before, after),
    ensures
        collect_results(after) == Seq::<LoadResult>::empty(),
    decreases after.len(),
{
    if after.len() > 0 {
        assert(collected_entry(before[after.len() - 1], after[after.len() - 1]));
        assert(collected_entries(before.drop_last(), after.drop_last())) by {
            assert forall|i: int| 0 <= i < before.drop_last().len() implies #[trigger] collected_entry(before.drop_last()[i], after.drop_last()[i]) by {
                assert(collected_entry(before[i], after[i]));
            }
        }
        lemma_collect_twice_gives_nothing(before.drop_last(), after.drop_last());
    }
}

} // verus!

verus! {

/// Entries that have all settled are never asked for again: load attempts
/// leave them exactly as they were, so loading them again only collects.
pub proof fn lemma_settled_entries_stay(before: Seq<LoadEntry>, after: Seq<LoadEntry>)
    requires
        forall|j: int| 0 <= j < before.len() ==> settled(#[trigger] before[j]),
        advanced(before, after),
    ensures
        after == before,
{
    assert forall|j: int| 0 <= j < before.len() implies #[trigger] after[j] == before[j] by {
        assert(settled(before[j]));
    }
    assert(after =~= before);
}

} // verus!
