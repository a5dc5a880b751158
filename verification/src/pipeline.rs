//! The two-stage fetch pipeline around a selection.
//!
//! Stage A resolves the selected item: an item with no remote data
//! short-circuits the run with no network activity. Otherwise the page URL
//! `base_url + "/game/" + key` is fetched (by the unverified host), its text
//! is scanned for embedded screenshot paths, and each accepted path becomes
//! an image URL `base_url + path`. A fetched image is decoded (by the host)
//! into plain pixels and committed to the display only when it passes the
//! averaged-color gate; otherwise the previous display persists. Every stage
//! failure is silent and terminal for that run.
//!
//! Runs are neither tagged nor cancelled: when the user reselects while a
//! fetch is still in flight, the display shows whichever accepted image
//! arrives last — last response wins, not last request.

use crate::catalog::{Catalog, RemotePolicy};
use crate::gate::{gate, spec_gate, Pixel};
use crate::scrape::{scrape_candidates, spec_candidates};
use crate::selection::{spec_effect, spec_step, Highlight, Interaction, SelectionState};
use vstd::prelude::*;
use vstd::string::*;

verus! {

/// The page URL for a remote key: the base, then `/game/`, then the key.
pub open spec fn spec_game_url(base: Seq<char>, key: Seq<char>) -> Seq<char> {
    base + "/game/"@ + key
}

/// Stage A: resolve and short-circuit. An item without remote data yields no
/// request at all; an item with key `k` yields exactly the page URL
/// `base_url + "/game/" + k`.
pub fn page_request(policy: &RemotePolicy, base_url: &str) -> (r: Option<String>)
    ensures
        match *policy {
            RemotePolicy::NoRemoteData => r is None,
            RemotePolicy::RemoteKey(k) => r is Some && r->0@ == spec_game_url(base_url@, k@),
        },
{
    match policy {
        RemotePolicy::RemoteKey(key) => {
            let mut url = base_url.to_owned();
            url.append("/game/");
            url.append(key.as_str());
            Some(url)
        },
        RemotePolicy::NoRemoteData => None,
    }
}

/// What the UI must do after one list-entry interaction: first revert the
/// cleared handle to neutral, then apply the highlight, then issue the fetch,
/// if any.
pub struct EntryCommands {
    /// Handle whose highlight reverts to neutral first, if any.
    pub cleared: Option<u64>,
    /// Highlight to apply to the interacted entry afterwards.
    pub highlight: Highlight,
    /// Page URL to fetch, if the interaction started a pipeline run.
    pub fetch: Option<String>,
}

/// One pointer interaction on the list entry with handle `entity` showing
/// catalog item `item`: the selection moves as the state machine says, and a
/// page fetch is issued exactly for an effective press on an item with
/// remote data. An item whose resolution is "no remote data" never produces
/// a request, however it is selected.
pub fn on_entry_interaction(
    selection: &mut SelectionState,
    catalog: &Catalog,
    base_url: &str,
    entity: u64,
    item: usize,
    inter: &Interaction,
) -> (cmd: EntryCommands)
    requires
        item < catalog.spec_items().len(),
    ensures
        final(selection).spec_selected() == spec_step(
            old(selection).spec_selected(),
            entity,
            item,
            *inter,
        ),
        ({
            let e = spec_effect(old(selection).spec_selected(), entity, item, *inter);
            &&& cmd.cleared == e.cleared
            &&& cmd.highlight == e.highlight
            &&& match catalog.spec_items()[item as int].policy {
                RemotePolicy::NoRemoteData => cmd.fetch is None,
                RemotePolicy::RemoteKey(k) => if e.fetch {
                    cmd.fetch is Some && cmd.fetch->0@ == spec_game_url(base_url@, k@)
                } else {
                    cmd.fetch is None
                },
            }
        }),
{
    let effect = selection.on_interaction(entity, item, inter);
    let fetch = if effect.fetch {
        page_request(catalog.resolve(item), base_url)
    } else {
        None
    };
    EntryCommands { cleared: effect.cleared, highlight: effect.highlight, fetch }
}

/// The URL of one image fetch: the base followed by the scraped path.
pub fn image_url(base_url: &str, path: &str) -> (r: String)
    ensures
        r@ == base_url@ + path@,
{
    let mut url = base_url.to_owned();
    url.append(path);
    url
}

/// Stage B, on the fetched page text: every accepted screenshot path of the
/// page, turned into a full image URL, in page order. No marker on the page
/// means no requests: the run ends silently.
pub fn image_requests(base_url: &str, body: &str) -> (r: Vec<String>)
    ensures
        r@.len() == spec_candidates(body@).len(),
        forall|i: int|
            0 <= i < r@.len() ==> (#[trigger] r@[i])@ == base_url@ + spec_candidates(body@)[i],
{
    let candidates = scrape_candidates(body);
    let mut out: Vec<String> = Vec::new();
    let mut i: usize = 0;
    while i < candidates.len()
        invariant
            i <= candidates@.len(),
            candidates@.map_values(|s: String| s@) == spec_candidates(body@),
            out@.len() == i,
            forall|k: int|
                0 <= k < i ==> (#[trigger] out@[k])@ == base_url@ + spec_candidates(body@)[k],
        decreases candidates@.len() - i,
    {
        proof {
            assert(candidates@.map_values(|s: String| s@)[i as int] == candidates@[i as int]@);
        }
        let url = image_url(base_url, candidates[i].as_str());
        out.push(url);
        i += 1;
    }
    out
}

/// A decoded image: its pixels, in row-major order.
pub struct ImageData {
    /// The image's pixels; a decoded image has at least one.
    pub pixels: Vec<Pixel>,
}

impl ImageData {
    /// A decoded image has at least one pixel, each with channels in scale.
    pub open spec fn wf(self) -> bool {
        &&& self.pixels@.len() > 0
        &&& forall|i: int| 0 <= i < self.pixels@.len() ==> (#[trigger] self.pixels@[i]).wf()
    }
}

/// The single displayed result image. Created empty; replaced wholesale by
/// `try_commit`, its only mutation point.
pub struct Display {
    current: Option<ImageData>,
}

impl Display {
    /// The displayed image, if one has been committed.
    pub closed spec fn spec_current(self) -> Option<ImageData> {
        self.current
    }

    /// A display with nothing committed yet.
    pub fn new() -> (d: Display)
        ensures
            d.spec_current() is None,
    {
        Display { current: None }
    }

    /// The displayed image, if one has been committed.
    pub fn current(&self) -> (r: &Option<ImageData>)
        ensures
            *r == self.spec_current(),
    {
        &self.current
    }

    /// Stage D and commit: the candidate image replaces the display exactly
    /// when it passes the averaged-color gate; a rejected image is discarded
    /// and the previous display persists.
    pub fn try_commit(&mut self, candidate: ImageData) -> (accepted: bool)
        requires
            candidate.wf(),
        ensures
            accepted == spec_gate(candidate.pixels@),
            accepted ==> final(self).spec_current() == Some(candidate),
            !accepted ==> *final(self) == *old(self),
    {
        if gate(&candidate.pixels) {
            self.current = Some(candidate);
            true
        } else {
            false
        }
    }
}

} // verus!
