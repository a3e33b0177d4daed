//! The seed controls as a whole: the seed, the label that shows it, the tile
//! parameter that mirrors it, and the background of each button.

use vstd::prelude::*;
use crate::button::{Gray, Interaction, SeedButton};
use crate::label::{label_text, seed_label};
use crate::laws::seed_is_sum_of_presses;
use crate::material::TileMaterial;
use crate::seed::{fits, CurrentSeed};

verus! {

/// What the controls hold, as plain mathematics.
pub struct ControlsView {
    /// The seed.
    pub seed: int,
    /// The text of the seed label.
    pub label: Seq<char>,
    /// The tile's shader parameter.
    pub tile_seed: int,
    /// The background of the "previous" button.
    pub prev_background: Gray,
    /// The background of the "next" button.
    pub next_background: Gray,
}

/// The step that one change asks of the seed: the button's delta for a press,
/// nothing for hovering or going idle.
pub open spec fn step_of(change: (SeedButton, Interaction)) -> int {
    if change.1 == Interaction::Pressed {
        change.0.spec_delta()
    } else {
        0
    }
}

/// The sum of the steps that `changes` ask of the seed.
pub open spec fn press_total(changes: Seq<(SeedButton, Interaction)>) -> int
    decreases changes.len(),
{
    if changes.len() == 0 {
        0
    } else {
        press_total(changes.drop_last()) + step_of(changes.last())
    }
}

/// Whether one of `changes` is a press.
pub open spec fn any_pressed(changes: Seq<(SeedButton, Interaction)>) -> bool {
    exists|i: int| 0 <= i < changes.len() && (#[trigger] changes[i]).1 == Interaction::Pressed
}

impl ControlsView {
    /// Controls that show `seed` and have not been touched: the label and the
    /// tile agree with the seed and both buttons are idle.
    pub open spec fn showing(seed: int) -> Self {
        ControlsView {
            seed,
            label: label_text(seed),
            tile_seed: seed,
            prev_background: Interaction::Idle.spec_background(),
            next_background: Interaction::Idle.spec_background(),
        }
    }

    /// The controls at startup.
    pub open spec fn initial() -> Self {
        Self::showing(0)
    }

    /// The label reads the seed and the tile parameter is the seed.
    pub open spec fn consistent(self) -> bool {
        &&& self.label == label_text(self.seed)
        &&& self.tile_seed == self.seed
    }

    /// The background of `button`.
    pub open spec fn background(self, button: SeedButton) -> Gray {
        match button {
            SeedButton::Prev => self.prev_background,
            SeedButton::Next => self.next_background,
        }
    }

    /// These controls with the background of `button` set to `shade`.
    pub open spec fn shaded(self, button: SeedButton, shade: Gray) -> Self {
        match button {
            SeedButton::Prev => ControlsView { prev_background: shade, ..self },
            SeedButton::Next => ControlsView { next_background: shade, ..self },
        }
    }

    /// These controls after `button` has entered `new_state`. The button
    /// takes the background of its new state. A press also adds the button's
    /// delta to the seed and rewrites the label and the tile parameter from
    /// the sum; hovering and going idle change nothing else.
    pub open spec fn after(self, button: SeedButton, new_state: Interaction) -> Self {
        let shaded = self.shaded(button, new_state.spec_background());
        if new_state == Interaction::Pressed {
            let seed = self.seed + button.spec_delta();
            ControlsView { seed, label: label_text(seed), tile_seed: seed, ..shaded }
        } else {
            shaded
        }
    }

    /// These controls after each of `changes` in turn.
    pub open spec fn after_all(self, changes: Seq<(SeedButton, Interaction)>) -> Self
        decreases changes.len(),
    {
        if changes.len() == 0 {
            self
        } else {
            let last = changes.last();
            self.after_all(changes.drop_last()).after(last.0, last.1)
        }
    }

    /// The machine can hold the seed after every one of `changes`.
    pub open spec fn fits_through(self, changes: Seq<(SeedButton, Interaction)>) -> bool {
        forall|k: int|
            0 <= k <= changes.len() ==> fits((#[trigger] self.after_all(changes.take(k))).seed)
    }
}

/// Appending one change to a history applies it last and adds its step to
/// the sum of steps, and the history holds a press exactly if it did before
/// or the new change is one.
pub proof fn after_one_more_change(
    start: ControlsView,
    changes: Seq<(SeedButton, Interaction)>,
    change: (SeedButton, Interaction),
)
    ensures
        start.after_all(changes.push(change)) == start.after_all(changes).after(change.0, change.1),
        press_total(changes.push(change)) == press_total(changes) + step_of(change),
        any_pressed(changes.push(change)) == (any_pressed(changes) || change.1
            == Interaction::Pressed),
{
    let longer = changes.push(change);
    assert(longer.drop_last() =~= changes);
    if any_pressed(changes) {
        let i: int = choose|i: int|
            0 <= i < changes.len() && (#[trigger] changes[i]).1 == Interaction::Pressed;
        assert(longer[i].1 == Interaction::Pressed);
    }
    if change.1 == Interaction::Pressed {
        assert(longer[changes.len() as int].1 == Interaction::Pressed);
    }
    if any_pressed(longer) {
        let i: int = choose|i: int|
            0 <= i < longer.len() && (#[trigger] longer[i]).1 == Interaction::Pressed;
        if i < changes.len() {
            assert(changes[i].1 == Interaction::Pressed);
        }
    }
}

/// The seed controls. At every moment the label reads the seed and the tile
/// parameter is the seed.
pub struct SeedControls {
    seed: CurrentSeed,
    label: String,
    tile: TileMaterial,
    prev_background: Gray,
    next_background: Gray,
}

impl View for SeedControls {
    type V = ControlsView;

    closed spec fn view(&self) -> ControlsView {
        ControlsView {
            seed: self.seed@,
            label: self.label@,
            tile_seed: self.tile.seed as int,
            prev_background: self.prev_background,
            next_background: self.next_background,
        }
    }
}

impl SeedControls {
    #[verifier::type_invariant]
    closed spec fn well_formed(&self) -> bool {
        self@.consistent()
    }

    /// The controls at startup: seed zero, both buttons idle.
    pub fn new() -> (controls: Self)
        ensures
            controls@ == ControlsView::initial(),
    {
        Self::with_seed(CurrentSeed::new())
    }

    /// Untouched controls that show `seed`.
    pub fn with_seed(seed: CurrentSeed) -> (controls: Self)
        ensures
            controls@ == ControlsView::showing(seed@),
    {
        let label = seed_label(&seed);
        let tile = TileMaterial::new(&seed);
        SeedControls {
            seed,
            label,
            tile,
            prev_background: Interaction::Idle.background(),
            next_background: Interaction::Idle.background(),
        }
    }

    /// The seed.
    pub fn seed(&self) -> (seed: CurrentSeed)
        ensures
            seed@ == self@.seed,
    {
        self.seed
    }

    /// The text of the seed label, which reads the seed.
    pub fn label(&self) -> (text: &str)
        ensures
            text@ == self@.label,
            text@ == label_text(self@.seed),
    {
        proof {
            use_type_invariant(self);
        }
        self.label.as_str()
    }

    /// The tile's material, whose parameter is the seed.
    pub fn tile(&self) -> (tile: TileMaterial)
        ensures
            tile.seed == self@.tile_seed,
            tile.seed == self@.seed,
    {
        proof {
            use_type_invariant(self);
        }
        self.tile
    }

    /// The background of `button`.
    pub fn background(&self, button: SeedButton) -> (shade: Gray)
        ensures
            shade == self@.background(button),
    {
        match button {
            SeedButton::Prev => self.prev_background,
            SeedButton::Next => self.next_background,
        }
    }

    /// Handles `button` entering `new_state`, and says whether the label and
    /// the tile parameter were rewritten, which is so on a press. The seed
    /// that the change leaves has to be one the machine can hold.
    pub fn on_interaction_change(&mut self, button: SeedButton, new_state: Interaction) -> (rewritten: bool)
        requires
            fits(old(self)@.after(button, new_state).seed),
        ensures
            final(self)@ == old(self)@.after(button, new_state),
            final(self)@.consistent(),
            rewritten == (new_state == Interaction::Pressed),
    {
        proof {
            use_type_invariant(&*self);
        }
        let shade = new_state.background();
        let mut prev_background = self.prev_background;
        let mut next_background = self.next_background;
        match button {
            SeedButton::Prev => {
                prev_background = shade;
            },
            SeedButton::Next => {
                next_background = shade;
            },
        }
        match new_state {
            Interaction::Pressed => {
                let mut seed = self.seed;
                seed.advance(button);
                let label = seed_label(&seed);
                let tile = TileMaterial::new(&seed);
                *self = SeedControls { seed, label, tile, prev_background, next_background };
                true
            },
            _ => {
                self.prev_background = prev_background;
                self.next_background = next_background;
                false
            },
        }
    }

    /// Whether the machine can hold the seed after every one of `changes`,
    /// which is what `handle_seed_buttons` asks of them.
    pub fn can_handle(&self, changes: &[(SeedButton, Interaction)]) -> (can: bool)
        ensures
            can == self@.fits_through(changes@),
    {
        let mut seed = self.seed;
        let mut i: usize = 0;
        assert(changes@.take(0) =~= Seq::empty());
        while i < changes.len()
            invariant
                i <= changes.len(),
                seed@ == self@.after_all(changes@.take(i as int)).seed,
                forall|k: int|
                    0 <= k <= i ==> fits((#[trigger] self@.after_all(changes@.take(k))).seed),
            decreases changes.len() - i,
        {
            let change = changes[i];
            proof {
                assert(changes@.take(i + 1) =~= changes@.take(i as int).push(change));
                after_one_more_change(self@, changes@.take(i as int), change);
            }
            match change.1 {
                Interaction::Pressed => {
                    if !seed.can_advance(change.0) {
                        assert(!fits(self@.after_all(changes@.take(i + 1)).seed));
                        return false;
                    }
                    seed.advance(change.0);
                },
                _ => {},
            }
            i += 1;
        }
        true
    }

    /// Handles the interaction changes of one frame in the order given, and
    /// says whether the label and the tile parameter were rewritten, which is
    /// so if one of the changes was a press. The seed moves by the sum of the
    /// steps pressed. Every seed on the way has to be one the machine can
    /// hold.
    pub fn handle_seed_buttons(&mut self, changes: &[(SeedButton, Interaction)]) -> (rewritten: bool)
        requires
            old(self)@.fits_through(changes@),
        ensures
            final(self)@ == old(self)@.after_all(changes@),
            final(self)@.seed == old(self)@.seed + press_total(changes@),
            final(self)@.consistent(),
            rewritten == any_pressed(changes@),
    {
        proof {
            use_type_invariant(&*self);
        }
        let mut rewritten = false;
        let mut i: usize = 0;
        while i < changes.len()
            invariant
                i <= changes.len(),
                old(self)@.fits_through(changes@),
                self@.consistent(),
                self@ == old(self)@.after_all(changes@.take(i as int)),
                rewritten == any_pressed(changes@.take(i as int)),
            decreases changes.len() - i,
        {
            let change = changes[i];
            proof {
                assert(changes@.take(i + 1) =~= changes@.take(i as int).push(change));
                after_one_more_change(old(self)@, changes@.take(i as int), change);
                assert(fits(old(self)@.after_all(changes@.take(i + 1)).seed));
            }
            let pressed = self.on_interaction_change(change.0, change.1);
            rewritten = rewritten || pressed;
            i += 1;
        }
        proof {
            assert(changes@.take(i as int) =~= changes@);
            seed_is_sum_of_presses(old(self)@, changes@);
        }
        rewritten
    }
}

} // verus!
