//! A bidirectional registry between logical actions and physical buttons.
//!
//! A [`MappedButtons`] entry pairs one action with the small ordered set
//! of [`GenericButton`]s that trigger it. A [`ButtonMapping`] owns a list
//! of such entries plus two indexes — action to list position and button
//! to list position — and maintains, as a verified invariant, that every
//! action is bound by at most one entry, that every button is claimed by
//! at most one entry, and that both indexes agree exactly with the
//! backing list.

use vstd::prelude::*;
use crate::button::{GenericButton, InputState};
use smallvec::SmallVec;

verus! {

/// Stored space in the small vector that holds the buttons of one entry;
/// entries with more buttons spill to the heap.
pub const BUTTON_COUNT: usize = 4;

/// The button collection of one entry, backed by a `smallvec::SmallVec`:
/// up to [`BUTTON_COUNT`] buttons are stored in place, more spill to the
/// heap. The collection is opaque here; `button_vec_view` names what it
/// holds.
#[verifier::external_body]
pub struct ButtonVec {
    vec: SmallVec<[GenericButton; BUTTON_COUNT]>,
}

/// The buttons a button vector holds, in order.
pub uninterp spec fn button_vec_view(v: ButtonVec) -> Seq<GenericButton>;

/// Relies on smallvec::SmallVec::from_slice: the new vector copies the
/// slice's elements, in order.
#[verifier::external_body]
fn buttons_from_slice(buttons: &[GenericButton]) -> (r: ButtonVec)
    ensures
        button_vec_view(r) == buttons@,
{
    ButtonVec { vec: SmallVec::from_slice(buttons) }
}

/// Relies on smallvec::SmallVec::from_vec: the new vector takes over the
/// vector's elements, in order.
#[verifier::external_body]
fn buttons_from_vec(buttons: Vec<GenericButton>) -> (r: ButtonVec)
    ensures
        button_vec_view(r) == buttons@,
{
    ButtonVec { vec: SmallVec::from_vec(buttons) }
}

/// Relies on smallvec::SmallVec::as_slice: a slice of the entire vector.
#[verifier::external_body]
fn buttons_as_slice(buttons: &ButtonVec) -> (r: &[GenericButton])
    ensures
        r@ == button_vec_view(*buttons),
{
    buttons.vec.as_slice()
}

/// Actions that respond to input (and are mapped) need to implement this
/// trait. An action is a plain copyable value; `action_eq` must decide
/// plain value equality, which lets the registry keep its indexes
/// honest. An enum deriving `PartialEq` together with `Structural` can
/// implement it as `*self == *other`.
pub trait InputAction: Sized + Copy {
    /// Decide whether two actions are the same value.
    fn action_eq(&self, other: &Self) -> (r: bool)
        ensures
            r == (*self == *other),
    ;
}

/// Maps an action to a small ordered collection of buttons.
pub struct MappedButtons<A> {
    /// Action of this mapping.
    action: A,
    /// Buttons it maps to, in order.
    buttons: ButtonVec,
}

impl<A> View for MappedButtons<A> {
    type V = (A, Seq<GenericButton>);

    closed spec fn view(&self) -> (A, Seq<GenericButton>) {
        (self.action, button_vec_view(self.buttons))
    }
}

impl<A: InputAction> MappedButtons<A> {
    /// Pair `action` with the buttons of the given slice.
    pub fn new(action: A, buttons: &[GenericButton]) -> (r: Self)
        ensures
            r@.0 == action,
            r@.1 == buttons@,
    {
        let buttons = buttons_from_slice(buttons);
        MappedButtons { action, buttons }
    }

    /// Pair `action` with the single `button`.
    pub fn new_single(action: A, button: GenericButton) -> (r: Self)
        ensures
            r@.0 == action,
            r@.1 =~= seq![button],
    {
        let buttons: Vec<GenericButton> = vec![button];
        MappedButtons { action, buttons: buttons_from_vec(buttons) }
    }

    /// List of buttons the action is mapped to.
    pub fn get_buttons(&self) -> (r: &[GenericButton])
        ensures
            r@ == self@.1,
    {
        buttons_as_slice(&self.buttons)
    }

    /// Mapped action.
    pub fn get_action(&self) -> (r: A)
        ensures
            r == self@.0,
    {
        self.action
    }
}

/// Every pair of a button index points at an entry position below `hi`
/// and at a button that its entry actually holds.
spec fn index_pairs_valid<A>(
    index: Seq<(GenericButton, usize)>,
    entries: Seq<MappedButtons<A>>,
    hi: int,
) -> bool {
    forall|k: int|
        0 <= k < index.len()
        ==> (#[trigger] index[k]).1 < hi
            && button_vec_view(entries[index[k].1 as int].buttons).contains(index[k].0)
}

/// No pair occurs twice in a button index.
spec fn index_pairs_distinct(index: Seq<(GenericButton, usize)>) -> bool {
    forall|k1: int, k2: int|
        0 <= k1 < index.len() && 0 <= k2 < index.len() && k1 != k2
        ==> #[trigger] index[k1] != #[trigger] index[k2]
}

/// Every button of every entry below `hi` appears in the button index,
/// paired with its entry's position.
spec fn index_complete_below<A>(
    index: Seq<(GenericButton, usize)>,
    entries: Seq<MappedButtons<A>>,
    hi: int,
) -> bool {
    forall|j: int, p: int|
        0 <= j < hi && 0 <= p < button_vec_view(entries[j].buttons).len()
        ==> index.contains((#[trigger] button_vec_view(entries[j].buttons)[p], j as usize))
}

/// Stores mappings of actions to buttons (and reverse).
///
/// The abstract value of a mapping is the sequence of its entries, each
/// an action paired with its button sequence, in insertion order.
pub struct ButtonMapping<A> {
    /// The entries, in insertion order.
    mapped_buttons: Vec<MappedButtons<A>>,
    /// Index from action to position in `mapped_buttons`.
    from_action_map: Vec<(A, usize)>,
    /// Index from button to the position of the entry that claims it.
    from_button_map: Vec<(GenericButton, usize)>,
}

impl<A> View for ButtonMapping<A> {
    type V = Seq<(A, Seq<GenericButton>)>;

    closed spec fn view(&self) -> Seq<(A, Seq<GenericButton>)> {
        Seq::new(
            self.mapped_buttons@.len(),
            |j: int| (self.mapped_buttons@[j].action, button_vec_view(self.mapped_buttons@[j].buttons)),
        )
    }
}

impl<A> ButtonMapping<A> {
    /// True when some entry binds `action`.
    pub open spec fn contains_action(self, action: A) -> bool {
        exists|j: int| 0 <= j < self@.len() && #[trigger] self@[j].0 == action
    }

    /// The position of the entry that binds `action` (meaningful only
    /// when `contains_action` holds).
    pub open spec fn action_index(self, action: A) -> int {
        choose|j: int| 0 <= j < self@.len() && #[trigger] self@[j].0 == action
    }

    /// The buttons bound to `action` (meaningful only when
    /// `contains_action` holds).
    pub open spec fn spec_buttons_of(self, action: A) -> Seq<GenericButton> {
        self@[self.action_index(action)].1
    }

    /// True when some entry claims `button`.
    pub open spec fn claims_button(self, button: GenericButton) -> bool {
        exists|j: int| 0 <= j < self@.len() && #[trigger] self@[j].1.contains(button)
    }

    /// The position of the entry that claims `button` (meaningful only
    /// when `claims_button` holds).
    pub open spec fn button_index(self, button: GenericButton) -> int {
        choose|j: int| 0 <= j < self@.len() && #[trigger] self@[j].1.contains(button)
    }

    /// The action that claims `button`, if any.
    pub open spec fn spec_action_of(self, button: GenericButton) -> Option<A> {
        if self.claims_button(button) {
            Some(self@[self.button_index(button)].0)
        } else {
            None
        }
    }

    /// True when some button bound to `action` counts as held down
    /// against the supplied snapshots. An action that is not bound
    /// never counts.
    pub open spec fn spec_pressed(
        self,
        action: A,
        key_codes: Option<&InputState>,
        mouse_buttons: Option<&InputState>,
        gamepad_buttons: Option<&InputState>,
    ) -> bool {
        self.contains_action(action) && exists|p: int|
            0 <= p < self.spec_buttons_of(action).len()
            && (#[trigger] self.spec_buttons_of(action)[p]).spec_pressed(
                key_codes,
                mouse_buttons,
                gamepad_buttons,
            )
    }

    /// As [`ButtonMapping::spec_pressed`], for the just-pressed record.
    pub open spec fn spec_just_pressed(
        self,
        action: A,
        key_codes: Option<&InputState>,
        mouse_buttons: Option<&InputState>,
        gamepad_buttons: Option<&InputState>,
    ) -> bool {
        self.contains_action(action) && exists|p: int|
            0 <= p < self.spec_buttons_of(action).len()
            && (#[trigger] self.spec_buttons_of(action)[p]).spec_just_pressed(
                key_codes,
                mouse_buttons,
                gamepad_buttons,
            )
    }

    /// As [`ButtonMapping::spec_pressed`], for the just-released record.
    pub open spec fn spec_just_released(
        self,
        action: A,
        key_codes: Option<&InputState>,
        mouse_buttons: Option<&InputState>,
        gamepad_buttons: Option<&InputState>,
    ) -> bool {
        self.contains_action(action) && exists|p: int|
            0 <= p < self.spec_buttons_of(action).len()
            && (#[trigger] self.spec_buttons_of(action)[p]).spec_just_released(
                key_codes,
                mouse_buttons,
                gamepad_buttons,
            )
    }

    /// True when `entry` may be inserted: its action is not yet bound,
    /// none of its buttons is claimed, and it repeats no button.
    pub open spec fn spec_can_insert(self, entry: (A, Seq<GenericButton>)) -> bool {
        &&& !self.contains_action(entry.0)
        &&& forall|p: int| 0 <= p < entry.1.len() ==> !self.claims_button(#[trigger] entry.1[p])
        &&& forall|p1: int, p2: int|
                0 <= p1 < entry.1.len() && 0 <= p2 < entry.1.len() && p1 != p2
                ==> #[trigger] entry.1[p1] != #[trigger] entry.1[p2]
    }

    /// True when `buttons` may replace the buttons of `action`: none of
    /// them is claimed by a different action, and the list repeats no
    /// button.
    pub open spec fn spec_can_update(self, action: A, buttons: Seq<GenericButton>) -> bool {
        &&& forall|p: int|
                0 <= p < buttons.len()
                ==> (self.claims_button(#[trigger] buttons[p])
                    ==> self@[self.button_index(buttons[p])].0 == action)
        &&& forall|p1: int, p2: int|
                0 <= p1 < buttons.len() && 0 <= p2 < buttons.len() && p1 != p2
                ==> #[trigger] buttons[p1] != #[trigger] buttons[p2]
    }

    /// No action is bound by two entries, and no button is claimed
    /// twice — neither by two entries nor twice by one entry.
    pub open spec fn entries_distinct(self) -> bool {
        &&& forall|j1: int, j2: int|
                0 <= j1 < self@.len() && 0 <= j2 < self@.len() && j1 != j2
                ==> #[trigger] self@[j1].0 != #[trigger] self@[j2].0
        &&& forall|j1: int, p1: int, j2: int, p2: int|
                0 <= j1 < self@.len() && 0 <= p1 < self@[j1].1.len()
                && 0 <= j2 < self@.len() && 0 <= p2 < self@[j2].1.len()
                && (j1 != j2 || p1 != p2)
                ==> #[trigger] self@[j1].1[p1] != #[trigger] self@[j2].1[p2]
    }

    /// The two indexes agree exactly with the entry list: the action
    /// index holds exactly the pairs (action of entry j, j), and the
    /// button index holds exactly one pair (b, j) for each button b of
    /// each entry j.
    pub closed spec fn indexes_consistent(self) -> bool {
        &&& self.from_action_map@.len() == self.mapped_buttons@.len()
        &&& forall|j: int|
                0 <= j < self.mapped_buttons@.len()
                ==> #[trigger] self.from_action_map@[j]
                    == (self.mapped_buttons@[j].action, j as usize)
        &&& index_pairs_valid(
            self.from_button_map@,
            self.mapped_buttons@,
            self.mapped_buttons@.len() as int,
        )
        &&& index_pairs_distinct(self.from_button_map@)
        &&& index_complete_below(
            self.from_button_map@,
            self.mapped_buttons@,
            self.mapped_buttons@.len() as int,
        )
    }

    /// The registry's invariant: entries are conflict-free and both
    /// indexes mirror the entry list.
    pub open spec fn well_formed(self) -> bool {
        self.entries_distinct() && self.indexes_consistent()
    }

    /// An entry that binds `action` can stand nowhere but at
    /// `action_index(action)`.
    pub proof fn lemma_action_index_is(self, j: int)
        requires
            self.well_formed(),
            0 <= j < self@.len(),
        ensures
            self.contains_action(self@[j].0),
            self.action_index(self@[j].0) == j,
    {
        assert(self.contains_action(self@[j].0));
        let j2 = self.action_index(self@[j].0);
        assert(0 <= j2 < self@.len() && self@[j2].0 == self@[j].0);
    }

    /// An entry that holds `button` can stand nowhere but at
    /// `button_index(button)`.
    pub proof fn lemma_button_index_is(self, j: int, button: GenericButton)
        requires
            self.well_formed(),
            0 <= j < self@.len(),
            self@[j].1.contains(button),
        ensures
            self.claims_button(button),
            self.button_index(button) == j,
    {
        assert(self.claims_button(button));
        let j2 = self.button_index(button);
        assert(0 <= j2 < self@.len() && self@[j2].1.contains(button));
        if j2 != j {
            let p1 = choose|p: int| 0 <= p < self@[j].1.len() && self@[j].1[p] == button;
            let p2 = choose|p: int| 0 <= p < self@[j2].1.len() && self@[j2].1[p] == button;
            assert(self@[j].1[p1] != self@[j2].1[p2]);
        }
    }

    /// Law: in a well-formed mapping every action is bound by at most
    /// one entry and every button is claimed by at most one entry.
    pub proof fn lemma_claims_at_most_once(self, j1: int, j2: int)
        requires
            self.well_formed(),
            0 <= j1 < self@.len(),
            0 <= j2 < self@.len(),
        ensures
            self@[j1].0 == self@[j2].0 ==> j1 == j2,
            forall|b: GenericButton|
                self@[j1].1.contains(b) && #[trigger] self@[j2].1.contains(b) ==> j1 == j2,
    {
        assert forall|b: GenericButton|
            self@[j1].1.contains(b) && #[trigger] self@[j2].1.contains(b) implies j1 == j2 by {
            self.lemma_button_index_is(j1, b);
            self.lemma_button_index_is(j2, b);
        }
    }

    /// Law: over a well-formed mapping the two lookups are mutual
    /// inverses on the claimed buttons: `button` resolves to `action`
    /// exactly when `action` is bound and `button` stands among its
    /// buttons.
    pub proof fn lemma_lookups_mutual_inverse(self, action: A, button: GenericButton)
        requires
            self.well_formed(),
        ensures
            self.spec_action_of(button) == Some(action)
                <==> self.contains_action(action) && self.spec_buttons_of(action).contains(button),
    {
        if self.spec_action_of(button) == Some(action) {
            let j = self.button_index(button);
            assert(0 <= j < self@.len() && self@[j].1.contains(button));
            self.lemma_action_index_is(j);
        }
        if self.contains_action(action) && self.spec_buttons_of(action).contains(button) {
            let j = self.action_index(action);
            assert(0 <= j < self@.len() && self@[j].0 == action);
            self.lemma_button_index_is(j, button);
        }
    }

}

impl<A: InputAction> ButtonMapping<A> {
    /// Law: replacing the buttons of a bound action rebinds exactly
    /// them. Afterwards each former button that is not among the new
    /// ones is mapped to no action, each new button is mapped to
    /// exactly that action, and every other action keeps its buttons.
    pub proof fn lemma_update_rebinds(
        self,
        updated: ButtonMapping<A>,
        action: A,
        buttons: Seq<GenericButton>,
    )
        requires
            self.well_formed(),
            updated.well_formed(),
            self.contains_action(action),
            updated@ == self@.update(self.action_index(action), (action, buttons)),
        ensures
            forall|b: GenericButton|
                self.spec_buttons_of(action).contains(b) && !buttons.contains(b)
                ==> #[trigger] updated.spec_action_of(b) is None,
            forall|b: GenericButton|
                buttons.contains(b) ==> #[trigger] updated.spec_action_of(b) == Some(action),
            forall|a2: A|
                a2 != action && self.contains_action(a2)
                ==> #[trigger] updated.contains_action(a2)
                    && updated.spec_buttons_of(a2) == self.spec_buttons_of(a2),
    {
        let i = self.action_index(action);
        assert(0 <= i < self@.len() && self@[i].0 == action);
        assert forall|b: GenericButton| buttons.contains(b)
            implies #[trigger] updated.spec_action_of(b) == Some(action) by {
            assert(updated@[i].1 == buttons);
            updated.lemma_button_index_is(i, b);
        }
        assert forall|b: GenericButton|
            self.spec_buttons_of(action).contains(b) && !buttons.contains(b)
            implies #[trigger] updated.spec_action_of(b) is None by {
            if updated.claims_button(b) {
                let j = updated.button_index(b);
                assert(0 <= j < updated@.len() && updated@[j].1.contains(b));
                assert(j != i);
                assert(updated@[j] == self@[j]);
                self.lemma_button_index_is(i, b);
                self.lemma_button_index_is(j, b);
            }
        }
        assert forall|a2: A| a2 != action && self.contains_action(a2)
            implies #[trigger] updated.contains_action(a2)
                && updated.spec_buttons_of(a2) == self.spec_buttons_of(a2) by {
            let j = self.action_index(a2);
            assert(0 <= j < self@.len() && self@[j].0 == a2);
            assert(j != i);
            assert(updated@[j] == self@[j]);
            updated.lemma_action_index_is(j);
            self.lemma_action_index_is(j);
        }
    }

    /// Find the list position of the entry binding `action`, through the
    /// action index.
    fn find_action_index(&self, action: &A) -> (r: Option<usize>)
        requires
            self.well_formed(),
        ensures
            match r {
                Some(i) => i < self@.len() && self@[i as int].0 == *action
                    && self.contains_action(*action) && self.action_index(*action) == i,
                None => !self.contains_action(*action),
            },
    {
        let n = self.from_action_map.len();
        let mut k: usize = 0;
        while k < n
            invariant
                self.well_formed(),
                n == self.from_action_map@.len(),
                k <= n,
                forall|j: int| 0 <= j < k ==> #[trigger] self@[j].0 != *action,
            decreases n - k,
        {
            if self.from_action_map[k].0.action_eq(action) {
                let i = self.from_action_map[k].1;
                proof {
                    self.lemma_action_index_is(k as int);
                }
                return Some(i);
            }
            k += 1;
        }
        None
    }

    /// Find the list position of the entry claiming `button`, through
    /// the button index.
    fn find_button_index(&self, button: &GenericButton) -> (r: Option<usize>)
        requires
            self.well_formed(),
        ensures
            match r {
                Some(i) => i < self@.len() && self@[i as int].1.contains(*button)
                    && self.claims_button(*button) && self.button_index(*button) == i,
                None => !self.claims_button(*button),
            },
    {
        let n = self.from_button_map.len();
        let mut k: usize = 0;
        while k < n
            invariant
                self.well_formed(),
                n == self.from_button_map@.len(),
                k <= n,
                forall|k0: int| 0 <= k0 < k ==> (#[trigger] self.from_button_map@[k0]).0 != *button,
            decreases n - k,
        {
            let pair = self.from_button_map[k];
            if pair.0 == *button {
                proof {
                    self.lemma_button_index_is(pair.1 as int, *button);
                }
                return Some(pair.1);
            }
            k += 1;
        }
        proof {
            if self.claims_button(*button) {
                let j = self.button_index(*button);
                let p = choose|p: int| 0 <= p < self@[j].1.len() && self@[j].1[p] == *button;
                assert(self.from_button_map@.contains(
                    (button_vec_view(self.mapped_buttons@[j].buttons)[p], j as usize),
                ));
            }
        }
        None
    }

    /// The entries, in insertion order; each is the library's value
    /// behind one position of the abstract view.
    pub fn entries(&self) -> (r: &Vec<MappedButtons<A>>)
        ensures
            r@.len() == self@.len(),
            forall|j: int| 0 <= j < r@.len() ==> (#[trigger] r@[j])@ == self@[j],
    {
        &self.mapped_buttons
    }

    /// Get the entry for `action` if it exists.
    pub fn get_from_action(&self, action: &A) -> (r: Option<&MappedButtons<A>>)
        requires
            self.well_formed(),
        ensures
            match r {
                Some(e) => self.contains_action(*action)
                    && e@ == self@[self.action_index(*action)],
                None => !self.contains_action(*action),
            },
    {
        match self.find_action_index(action) {
            Some(i) => Some(&self.mapped_buttons[i]),
            None => None,
        }
    }

    /// Get the entry for `button` if it exists.
    pub fn get_from_button(&self, button: &GenericButton) -> (r: Option<&MappedButtons<A>>)
        requires
            self.well_formed(),
        ensures
            match r {
                Some(e) => self.claims_button(*button)
                    && e@ == self@[self.button_index(*button)],
                None => !self.claims_button(*button),
            },
    {
        match self.find_button_index(button) {
            Some(i) => Some(&self.mapped_buttons[i]),
            None => None,
        }
    }

    /// Get the action that `button` is mapped to.
    pub fn get_action(&self, button: &GenericButton) -> (r: Option<A>)
        requires
            self.well_formed(),
        ensures
            r == self.spec_action_of(*button),
    {
        match self.get_from_button(button) {
            Some(e) => Some(e.get_action()),
            None => None,
        }
    }

    /// Get the buttons that `action` is mapped to.
    pub fn get_buttons(&self, action: &A) -> (r: Option<&[GenericButton]>)
        requires
            self.well_formed(),
        ensures
            match r {
                Some(s) => self.contains_action(*action) && s@ == self.spec_buttons_of(*action),
                None => !self.contains_action(*action),
            },
    {
        match self.get_from_action(action) {
            Some(e) => Some(e.get_buttons()),
            None => None,
        }
    }

    /// Check if the `action` is currently pressed: true exactly when
    /// some button bound to it is pressed. If a device snapshot is
    /// omitted its buttons read as not pressed; an unbound action is
    /// never pressed.
    #[verifier::loop_isolation(false)]
    pub fn pressed(
        &self,
        action: &A,
        key_codes: Option<&InputState>,
        mouse_buttons: Option<&InputState>,
        gamepad_buttons: Option<&InputState>,
    ) -> (r: bool)
        requires
            self.well_formed(),
        ensures
            r == self.spec_pressed(*action, key_codes, mouse_buttons, gamepad_buttons),
    {
        match self.get_buttons(action) {
            Some(bs) => {
                let n = bs.len();
                let mut p: usize = 0;
                while p < n
                    invariant
                        p <= n,
                        forall|q: int|
                            0 <= q < p
                            ==> !(#[trigger] bs@[q]).spec_pressed(
                                key_codes,
                                mouse_buttons,
                                gamepad_buttons,
                            ),
                    decreases n - p,
                {
                    if bs[p].pressed(key_codes, mouse_buttons, gamepad_buttons) {
                        return true;
                    }
                    p += 1;
                }
                false
            },
            None => false,
        }
    }

    /// Check if the `action` went down in this cycle: true exactly when
    /// some button bound to it was just pressed. If a device snapshot
    /// is omitted its buttons read as not pressed; an unbound action
    /// never counts.
    #[verifier::loop_isolation(false)]
    pub fn just_pressed(
        &self,
        action: &A,
        key_codes: Option<&InputState>,
        mouse_buttons: Option<&InputState>,
        gamepad_buttons: Option<&InputState>,
    ) -> (r: bool)
        requires
            self.well_formed(),
        ensures
            r == self.spec_just_pressed(*action, key_codes, mouse_buttons, gamepad_buttons),
    {
        match self.get_buttons(action) {
            Some(bs) => {
                let n = bs.len();
                let mut p: usize = 0;
                while p < n
                    invariant
                        p <= n,
                        forall|q: int|
                            0 <= q < p
                            ==> !(#[trigger] bs@[q]).spec_just_pressed(
                                key_codes,
                                mouse_buttons,
                                gamepad_buttons,
                            ),
                    decreases n - p,
                {
                    if bs[p].just_pressed(key_codes, mouse_buttons, gamepad_buttons) {
                        return true;
                    }
                    p += 1;
                }
                false
            },
            None => false,
        }
    }

    /// Check if the `action` was released in this cycle: true exactly
    /// when some button bound to it was just released. If a device
    /// snapshot is omitted its buttons read as not released; an unbound
    /// action never counts.
    #[verifier::loop_isolation(false)]
    pub fn just_released(
        &self,
        action: &A,
        key_codes: Option<&InputState>,
        mouse_buttons: Option<&InputState>,
        gamepad_buttons: Option<&InputState>,
    ) -> (r: bool)
        requires
            self.well_formed(),
        ensures
            r == self.spec_just_released(*action, key_codes, mouse_buttons, gamepad_buttons),
    {
        match self.get_buttons(action) {
            Some(bs) => {
                let n = bs.len();
                let mut p: usize = 0;
                while p < n
                    invariant
                        p <= n,
                        forall|q: int|
                            0 <= q < p
                            ==> !(#[trigger] bs@[q]).spec_just_released(
                                key_codes,
                                mouse_buttons,
                                gamepad_buttons,
                            ),
                    decreases n - p,
                {
                    if bs[p].just_released(key_codes, mouse_buttons, gamepad_buttons) {
                        return true;
                    }
                    p += 1;
                }
                false
            },
            None => false,
        }
    }

    /// Inserts a new mapping and adds the action and the buttons to the
    /// internal indexes. Fails, leaving the mapping unchanged, when the
    /// action is already bound, when one of the new buttons is already
    /// claimed, or when the new entry repeats a button — each entry's
    /// buttons stay duplicate-free.
    #[verifier::loop_isolation(false)]
    pub fn insert_mapping(&mut self, mapping: MappedButtons<A>) -> (r: bool)
        requires
            old(self).well_formed(),
        ensures
            final(self).well_formed(),
            r == old(self).spec_can_insert(mapping@),
            !r ==> *final(self) == *old(self),
            r ==> final(self)@ == old(self)@.push(mapping@),
    {
        if self.find_action_index(&mapping.action).is_some() {
            return false;
        }
        let bs = buttons_as_slice(&mapping.buttons);
        let n = bs.len();
        let mut p: usize = 0;
        while p < n
            invariant
                *self == *old(self),
                p <= n,
                forall|q: int| 0 <= q < p ==> !self.claims_button(#[trigger] bs@[q]),
                forall|q1: int, q2: int| 0 <= q1 < q2 < p ==> bs@[q1] != bs@[q2],
            decreases n - p,
        {
            if self.find_button_index(&bs[p]).is_some() {
                return false;
            }
            let mut q: usize = 0;
            while q < p
                invariant
                    q <= p < n,
                    forall|q0: int| 0 <= q0 < q ==> bs@[q0] != bs@[p as int],
                decreases p - q,
            {
                if bs[q] == bs[p] {
                    return false;
                }
                q += 1;
            }
            p += 1;
        }
        let idx = self.mapped_buttons.len();
        let ghost old_fbm = self.from_button_map@;
        let mut p: usize = 0;
        while p < n
            invariant
                p <= n,
                self.mapped_buttons@ == old(self).mapped_buttons@,
                self.from_action_map@ == old(self).from_action_map@,
                self.from_button_map@.len() == old_fbm.len() + p,
                forall|k: int| 0 <= k < old_fbm.len()
                    ==> #[trigger] self.from_button_map@[k] == old_fbm[k],
                forall|q: int| 0 <= q < p
                    ==> #[trigger] self.from_button_map@[old_fbm.len() + q]
                        == (bs@[q], idx as usize),
            decreases n - p,
        {
            self.from_button_map.push((bs[p], idx));
            p += 1;
        }
        let ghost bsv = bs@;
        self.from_action_map.push((mapping.action, idx));
        self.mapped_buttons.push(mapping);
        proof {
            let new = self@;
            let olds = old(self)@;
            assert(new =~= olds.push(mapping@));
            let fbm = self.from_button_map@;
            assert(old(self).indexes_consistent());
            assert forall|k: int| 0 <= k < fbm.len() implies
                (#[trigger] fbm[k]).1 < self.mapped_buttons@.len()
                && button_vec_view(
                    self.mapped_buttons@[fbm[k].1 as int].buttons,
                ).contains(fbm[k].0) by {
                if k < old_fbm.len() {
                    assert(fbm[k] == old_fbm[k]);
                    assert(old_fbm[k].1 < old(self).mapped_buttons@.len());
                    assert(self.mapped_buttons@[fbm[k].1 as int]
                        == old(self).mapped_buttons@[fbm[k].1 as int]);
                } else {
                    let q = k - old_fbm.len();
                    assert(self.from_button_map@[old_fbm.len() + q] == (bsv[q], idx as usize));
                    assert(fbm[k] == (bsv[q], idx as usize));
                    assert(button_vec_view(self.mapped_buttons@[idx as int].buttons) == bsv);
                    assert(button_vec_view(self.mapped_buttons@[idx as int].buttons)[q]
                        == bsv[q]);
                }
            }
            assert forall|k1: int, k2: int|
                0 <= k1 < fbm.len() && 0 <= k2 < fbm.len() && k1 != k2
                implies fbm[k1] != fbm[k2] by {
                if k1 < old_fbm.len() && k2 < old_fbm.len() {
                    assert(old_fbm[k1] != old_fbm[k2]);
                } else if k1 < old_fbm.len() {
                    let q2 = k2 - old_fbm.len();
                    assert(self.from_button_map@[old_fbm.len() + q2] == (bsv[q2], idx as usize));
                    assert(old_fbm[k1].1 < idx as usize);
                    assert(fbm[k2].1 == idx as usize);
                } else if k2 < old_fbm.len() {
                    let q1 = k1 - old_fbm.len();
                    assert(self.from_button_map@[old_fbm.len() + q1] == (bsv[q1], idx as usize));
                    assert(old_fbm[k2].1 < idx as usize);
                    assert(fbm[k1].1 == idx as usize);
                } else {
                    let q1 = k1 - old_fbm.len();
                    let q2 = k2 - old_fbm.len();
                    assert(self.from_button_map@[old_fbm.len() + q1] == (bsv[q1], idx as usize));
                    assert(self.from_button_map@[old_fbm.len() + q2] == (bsv[q2], idx as usize));
                    assert(fbm[k1].0 == bsv[q1] && fbm[k2].0 == bsv[q2]);
                    assert(bsv[q1] != bsv[q2]);
                }
            }
            assert forall|j: int, p0: int|
                0 <= j < self.mapped_buttons@.len()
                && 0 <= p0 < button_vec_view(self.mapped_buttons@[j].buttons).len()
                implies self.from_button_map@.contains(
                    (button_vec_view(self.mapped_buttons@[j].buttons)[p0], j as usize),
                ) by {
                let pair = (button_vec_view(self.mapped_buttons@[j].buttons)[p0], j as usize);
                if j < idx {
                    assert(old(self).indexes_consistent());
                    assert(self.mapped_buttons@[j] == old(self).mapped_buttons@[j]);
                    assert(old(self).from_button_map@.contains(
                        (button_vec_view(old(self).mapped_buttons@[j].buttons)[p0], j as usize),
                    ));
                    assert(old(self).from_button_map@.contains(pair));
                    let k = choose|k: int|
                        0 <= k < old_fbm.len() && old_fbm[k] == pair;
                    assert(self.from_button_map@[k] == pair);
                } else {
                    assert(self.from_button_map@[old_fbm.len() + p0] == pair);
                }
            }
        }
        true
    }

    /// Updates the button mappings for `action`, replacing the current
    /// buttons in place — the entry keeps its list position. A no-op
    /// when the action is not bound. Also a no-op when the new list
    /// would break the registry: when one of the new buttons is claimed
    /// by a different action, or when the list repeats a button.
    #[verifier::loop_isolation(false)]
    pub fn update_buttons(&mut self, action: A, buttons: Vec<GenericButton>)
        requires
            old(self).well_formed(),
        ensures
            final(self).well_formed(),
            !old(self).contains_action(action) ==> *final(self) == *old(self),
            !old(self).spec_can_update(action, buttons@) ==> *final(self) == *old(self),
            old(self).contains_action(action) && old(self).spec_can_update(action, buttons@)
                ==> final(self)@ == old(self)@.update(
                    old(self).action_index(action),
                    (action, buttons@),
                ),
    {
        let i = match self.find_action_index(&action) {
            None => { return ; },
            Some(i) => i,
        };
        let n = buttons.len();
        let mut p: usize = 0;
        while p < n
            invariant
                *self == *old(self),
                p <= n,
                forall|q: int|
                    0 <= q < p
                    ==> (self.claims_button(#[trigger] buttons@[q])
                        ==> self.button_index(buttons@[q]) == i),
                forall|q1: int, q2: int| 0 <= q1 < q2 < p ==> buttons@[q1] != buttons@[q2],
            decreases n - p,
        {
            match self.find_button_index(&buttons[p]) {
                Some(j) => {
                    if j != i {
                        proof {
                            if self@[j as int].0 == action {
                                assert(self@[i as int].0 == action);
                                assert(false);
                            }
                            assert(self.claims_button(buttons@[p as int]));
                            assert(!self.spec_can_update(action, buttons@));
                        }
                        return ;
                    }
                },
                None => {},
            }
            let mut q: usize = 0;
            while q < p
                invariant
                    q <= p < n,
                    forall|q0: int| 0 <= q0 < q ==> buttons@[q0] != buttons@[p as int],
                decreases p - q,
            {
                if buttons[q] == buttons[p] {
                    return ;
                }
                q += 1;
            }
            p += 1;
        }
        assert(old(self).spec_can_update(action, buttons@));
        let ghost oldv = self@;
        let ghost bsv = buttons@;
        let new_entry = MappedButtons { action, buttons: buttons_from_vec(buttons) };
        self.mapped_buttons[i] = new_entry;
        let ghost ents = self.mapped_buttons@;
        proof {
            assert(self@ =~= oldv.update(i as int, (action, bsv)));
            assert forall|j1: int, p1: int, j2: int, p2: int|
                0 <= j1 < self@.len() && 0 <= p1 < self@[j1].1.len()
                && 0 <= j2 < self@.len() && 0 <= p2 < self@[j2].1.len()
                && (j1 != j2 || p1 != p2)
                implies #[trigger] self@[j1].1[p1] != #[trigger] self@[j2].1[p2] by {
                if j1 != i as int && j2 != i as int {
                    assert(oldv[j1].1[p1] != oldv[j2].1[p2]);
                } else if j1 == i as int && j2 == i as int {
                    assert(bsv[p1] != bsv[p2]);
                } else if j1 == i as int {
                    // the new button bsv[p1] cannot stand in another entry j2
                    if self@[j2].1[p2] == bsv[p1] {
                        old(self).lemma_button_index_is(j2, bsv[p1]);
                        assert(old(self).claims_button(bsv[p1]));
                        assert(oldv[j2].0 == action);
                        assert(oldv[i as int].0 == action);
                    }
                } else {
                    if self@[j1].1[p1] == bsv[p2] {
                        old(self).lemma_button_index_is(j1, bsv[p2]);
                        assert(old(self).claims_button(bsv[p2]));
                        assert(oldv[j1].0 == action);
                        assert(oldv[i as int].0 == action);
                    }
                }
            }
            assert(self.entries_distinct());
        }
        // rebuild the button index against the updated entries
        self.from_button_map = Vec::new();
        let num = self.mapped_buttons.len();
        let mut j: usize = 0;
        while j < num
            invariant
                j <= num,
                self.mapped_buttons@ == ents,
                self.from_action_map@ == old(self).from_action_map@,
                index_pairs_valid(self.from_button_map@, ents, j as int),
                index_pairs_distinct(self.from_button_map@),
                index_complete_below(self.from_button_map@, ents, j as int),
            decreases num - j,
        {
            let bs = buttons_as_slice(&self.mapped_buttons[j].buttons);
            let m = bs.len();
            let ghost base = self.from_button_map@.len() as int;
            let ghost prev = self.from_button_map@;
            let mut p: usize = 0;
            while p < m
                invariant
                    p <= m,
                    self.mapped_buttons@ == ents,
                    self.from_action_map@ == old(self).from_action_map@,
                    self.from_button_map@.len() == base + p,
                    forall|k: int| 0 <= k < base ==> #[trigger] self.from_button_map@[k] == prev[k],
                    forall|q: int|
                        0 <= q < p
                        ==> #[trigger] self.from_button_map@[base + q] == (bs@[q], j as usize),
                decreases m - p,
            {
                self.from_button_map.push((bs[p], j));
                p += 1;
            }
            proof {
                let fbm = self.from_button_map@;
                assert(bs@ == self@[j as int].1);
                assert forall|k: int| 0 <= k < fbm.len() implies
                    (#[trigger] fbm[k]).1 < j + 1
                    && button_vec_view(ents[fbm[k].1 as int].buttons).contains(fbm[k].0) by {
                    if k < base {
                        assert(fbm[k] == prev[k]);
                        assert((prev[k]).1 < j as int);
                    } else {
                        let q = k - base;
                        assert(fbm[base + q] == (bs@[q], j as usize));
                        assert(button_vec_view(ents[j as int].buttons)[q] == bs@[q]);
                    }
                }
                assert forall|k1: int, k2: int|
                    0 <= k1 < fbm.len() && 0 <= k2 < fbm.len() && k1 != k2
                    implies fbm[k1] != fbm[k2] by {
                    if k1 < base && k2 < base {
                        assert(prev[k1] != prev[k2]);
                    } else if k1 < base {
                        let q2 = k2 - base;
                        assert(fbm[base + q2] == (bs@[q2], j as usize));
                        assert((prev[k1]).1 < j as int);
                    } else if k2 < base {
                        let q1 = k1 - base;
                        assert(fbm[base + q1] == (bs@[q1], j as usize));
                        assert((prev[k2]).1 < j as int);
                    } else {
                        let q1 = k1 - base;
                        let q2 = k2 - base;
                        assert(fbm[base + q1] == (bs@[q1], j as usize));
                        assert(fbm[base + q2] == (bs@[q2], j as usize));
                        assert(self@[j as int].1[q1] != self@[j as int].1[q2]);
                    }
                }
                assert forall|j0: int, p0: int|
                    0 <= j0 < j + 1 && 0 <= p0 < button_vec_view(ents[j0].buttons).len()
                    implies fbm.contains(
                        (#[trigger] button_vec_view(ents[j0].buttons)[p0], j0 as usize),
                    ) by {
                    let pair = (button_vec_view(ents[j0].buttons)[p0], j0 as usize);
                    if j0 < j as int {
                        assert(prev.contains(pair));
                        let k = choose|k: int| 0 <= k < prev.len() && prev[k] == pair;
                        assert(fbm[k] == pair);
                    } else {
                        assert(fbm[base + p0] == (bs@[p0], j as usize));
                    }
                }
            }
            j += 1;
        }
        proof {
            assert forall|j0: int| 0 <= j0 < self.mapped_buttons@.len()
                implies #[trigger] self.from_action_map@[j0]
                    == (self.mapped_buttons@[j0].action, j0 as usize) by {
                assert(old(self).from_action_map@[j0]
                    == (old(self).mapped_buttons@[j0].action, j0 as usize));
                if j0 == i as int {
                    assert(oldv[j0].0 == old(self).mapped_buttons@[j0].action);
                    assert(oldv[i as int].0 == action);
                }
            }
            assert(self.entries_distinct());
            assert(self.indexes_consistent());
            assert(self@ =~= oldv.update(i as int, (action, bsv)));
        }
    }

    /// Check if `button` is mapped to any action.
    pub fn is_mapped(&self, button: &GenericButton) -> (r: bool)
        requires
            self.well_formed(),
        ensures
            r == self.claims_button(*button),
    {
        match self.find_button_index(button) {
            Some(_) => true,
            None => false,
        }
    }
}

impl<A> Default for ButtonMapping<A> {
    /// The empty mapping: no entry binds any action, no button is
    /// claimed.
    fn default() -> (r: Self)
        ensures
            r.well_formed(),
            r@ == Seq::<(A, Seq<GenericButton>)>::empty(),
    {
        let r = ButtonMapping {
            mapped_buttons: Vec::new(),
            from_action_map: Vec::new(),
            from_button_map: Vec::new(),
        };
        proof {
            assert(r@ =~= Seq::<(A, Seq<GenericButton>)>::empty());
        }
        r
    }
}

} // verus!
