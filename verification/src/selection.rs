//! Single-selection state machine with exclusive highlighting.
//!
//! At most one catalog item is selected at a time. Items are identified by
//! their catalog index; the UI element that represents the selected item is
//! carried as an opaque handle. Pressing an item that is already selected is
//! idempotent: no highlight changes and no new fetch. Pressing a different
//! item first reverts the previous handle to the neutral highlight, then
//! selects the new one and triggers a fetch. Hovering never alters the
//! selection.

use vstd::prelude::*;

verus! {

/// Pointer state reported for one list entry on an input tick.
pub enum Interaction {
    /// The entry was pressed this tick.
    Pressed,
    /// The pointer rests over the entry without pressing.
    Hovered,
    /// The pointer is elsewhere.
    Idle,
}

/// Visual style of one list entry.
#[derive(PartialEq, Eq, Structural, Clone, Copy, Debug)]
pub enum Highlight {
    /// The entry is the active selection.
    Selected,
    /// The pointer is over the entry.
    Hovered,
    /// Neither selected nor hovered.
    Neutral,
}

/// The currently selected item and the handle of the list entry showing it.
#[derive(PartialEq, Eq, Structural, Clone, Copy, Debug)]
pub struct SelectedEntry {
    /// Index of the item in the catalog.
    pub item: usize,
    /// Opaque handle of the UI element that represents the item.
    pub entity: u64,
}

/// What one interaction asks the UI to do.
#[derive(PartialEq, Eq, Structural, Clone, Copy, Debug)]
pub struct InteractionEffect {
    /// Handle whose highlight must revert to neutral first, if any.
    pub cleared: Option<u64>,
    /// Highlight to apply to the interacted entry afterwards.
    pub highlight: Highlight,
    /// Whether the fetch pipeline is triggered for the interacted item.
    pub fetch: bool,
}

/// Tracks which single item is selected, if any.
pub struct SelectionState {
    /// The selected item and its handle, or `None` when nothing is selected.
    pub selected: Option<SelectedEntry>,
}

/// Whether `state` currently selects the item with catalog index `item`.
pub open spec fn is_selected_item(state: Option<SelectedEntry>, item: usize) -> bool {
    match state {
        Some(entry) => entry.item == item,
        None => false,
    }
}

/// Selection after one interaction: a press on a not-yet-selected item selects
/// it; everything else leaves the selection alone.
pub open spec fn spec_step(
    state: Option<SelectedEntry>,
    entity: u64,
    item: usize,
    inter: Interaction,
) -> Option<SelectedEntry> {
    if is_selected_item(state, item) {
        state
    } else {
        match inter {
            Interaction::Pressed => Some(SelectedEntry { item, entity }),
            Interaction::Hovered => state,
            Interaction::Idle => state,
        }
    }
}

/// Visible effect of one interaction. The already-selected item keeps its
/// active highlight whatever the pointer does, clears nothing and fetches
/// nothing; a press on a different item clears the previous handle, highlights
/// the new one and triggers a fetch; hover only tints the hovered entry.
pub open spec fn spec_effect(
    state: Option<SelectedEntry>,
    entity: u64,
    item: usize,
    inter: Interaction,
) -> InteractionEffect {
    if is_selected_item(state, item) {
        InteractionEffect { cleared: None, highlight: Highlight::Selected, fetch: false }
    } else {
        match inter {
            Interaction::Pressed => InteractionEffect {
                cleared: match state {
                    Some(entry) => Some(entry.entity),
                    None => None,
                },
                highlight: Highlight::Selected,
                fetch: true,
            },
            Interaction::Hovered => InteractionEffect {
                cleared: None,
                highlight: Highlight::Hovered,
                fetch: false,
            },
            Interaction::Idle => InteractionEffect {
                cleared: None,
                highlight: Highlight::Neutral,
                fetch: false,
            },
        }
    }
}

impl SelectionState {
    /// The current selection, if any.
    pub open spec fn spec_selected(self) -> Option<SelectedEntry> {
        self.selected
    }

    /// A fresh state with nothing selected.
    pub fn new() -> (s: SelectionState)
        ensures
            s.spec_selected() is None,
    {
        SelectionState { selected: None }
    }

    /// The current selection, if any.
    pub fn selected(&self) -> (r: Option<SelectedEntry>)
        ensures
            r == self.spec_selected(),
    {
        self.selected
    }

    /// Process one interaction on the entry with handle `entity` showing the
    /// item with catalog index `item`: the state moves as `spec_step` says
    /// and the returned effect is exactly `spec_effect`.
    pub fn on_interaction(
        &mut self,
        entity: u64,
        item: usize,
        inter: &Interaction,
    ) -> (e: InteractionEffect)
        ensures
            final(self).spec_selected() == spec_step(
                old(self).spec_selected(),
                entity,
                item,
                *inter,
            ),
            e == spec_effect(old(self).spec_selected(), entity, item, *inter),
    {
        let already = match &self.selected {
            Some(entry) => entry.item == item,
            None => false,
        };
        if already {
            InteractionEffect { cleared: None, highlight: Highlight::Selected, fetch: false }
        } else {
            match inter {
                Interaction::Pressed => {
                    let cleared = match &self.selected {
                        Some(entry) => Some(entry.entity),
                        None => None,
                    };
                    self.selected = Some(SelectedEntry { item, entity });
                    InteractionEffect { cleared, highlight: Highlight::Selected, fetch: true }
                },
                Interaction::Hovered => InteractionEffect {
                    cleared: None,
                    highlight: Highlight::Hovered,
                    fetch: false,
                },
                Interaction::Idle => InteractionEffect {
                    cleared: None,
                    highlight: Highlight::Neutral,
                    fetch: false,
                },
            }
        }
    }
}

/// Law: selecting the same item twice in a row is idempotent. The first press
/// selects the item and fetches once; the second press on the same item
/// changes nothing: it keeps the active highlight, clears no handle and
/// triggers no further fetch.
pub proof fn lemma_reselect_idempotent(state: Option<SelectedEntry>, entity: u64, item: usize)
    ensures
        ({
            let s1 = spec_step(state, entity, item, Interaction::Pressed);
            let e1 = spec_effect(state, entity, item, Interaction::Pressed);
            let s2 = spec_step(s1, entity, item, Interaction::Pressed);
            let e2 = spec_effect(s1, entity, item, Interaction::Pressed);
            &&& s2 == s1
            &&& e1.highlight == Highlight::Selected
            &&& e2 == (InteractionEffect {
                cleared: None,
                highlight: Highlight::Selected,
                fetch: false,
            })
        }),
{
}

/// Law: selecting item A and then a different item B reverts A's handle to
/// the neutral highlight, makes B's handle the active one, and leaves B
/// selected — independent of any fetch still in flight, since fetch
/// completion never touches the selection.
pub proof fn lemma_select_supersedes(
    state: Option<SelectedEntry>,
    entity_a: u64,
    item_a: usize,
    entity_b: u64,
    item_b: usize,
)
    requires
        item_a != item_b,
        !is_selected_item(state, item_a),
    ensures
        ({
            let s1 = spec_step(state, entity_a, item_a, Interaction::Pressed);
            let e2 = spec_effect(s1, entity_b, item_b, Interaction::Pressed);
            let s2 = spec_step(s1, entity_b, item_b, Interaction::Pressed);
            &&& e2.cleared == Some(entity_a)
            &&& e2.highlight == Highlight::Selected
            &&& s2 == Some(SelectedEntry { item: item_b, entity: entity_b })
        }),
{
}

/// Law: hovering over an entry, or moving the pointer away from it, never
/// alters the selection and never triggers a fetch.
pub proof fn lemma_hover_preserves_selection(
    state: Option<SelectedEntry>,
    entity: u64,
    item: usize,
    inter: Interaction,
)
    requires
        !(inter is Pressed),
    ensures
        spec_step(state, entity, item, inter) == state,
        !spec_effect(state, entity, item, inter).fetch,
{
}

} // verus!
