//! The transition controller: which image is shown, which one fades in, and
//! how far the fade has come.
//!
//! The controller owns two picture slots. While it is idle the active slot
//! shows the current image at full opacity. Once the image has been shown for
//! the display duration the controller asks its photo loader for the next
//! image and fades it in over the fade duration in the other slot; when the
//! fade is over the slots change roles. Time is whatever the host hands to
//! [`TransitionController::tick`], counted from the controller's creation.

use crate::photos::{
    outcome_view, OutcomeView, PhotoLoader, PhotoReference, SourceError, SourceErrorView,
};
use vstd::prelude::*;

verus! {

/// One of the two picture slots.
#[derive(Debug, Clone, Copy, PartialEq, Eq)]
pub enum Slot {
    First,
    Second,
}

impl Slot {
    /// The slot that `self` is not.
    pub open spec fn spec_other(self) -> Slot {
        match self {
            Slot::First => Slot::Second,
            Slot::Second => Slot::First,
        }
    }

    /// The slot that `self` is not.
    #[verifier::when_used_as_spec(spec_other)]
    pub fn other(self) -> (slot: Slot)
        ensures
            slot == self.spec_other(),
    {
        match self {
            Slot::First => Slot::Second,
            Slot::Second => Slot::First,
        }
    }
}

/// A visual weight between nothing and all, as a fraction.
#[derive(Debug, Clone, Copy)]
pub struct Opacity {
    pub numerator: u64,
    pub denominator: u64,
}

impl Opacity {
    /// The fraction lies between 0 and 1.
    pub open spec fn is_valid(self) -> bool {
        0 < self.denominator && self.numerator <= self.denominator
    }

    /// Full visibility.
    pub open spec fn spec_full() -> Opacity {
        Opacity { numerator: 1, denominator: 1 }
    }

    /// Full visibility.
    #[verifier::when_used_as_spec(spec_full)]
    pub fn full() -> (opacity: Opacity)
        ensures
            opacity == Opacity::spec_full(),
    {
        Opacity { numerator: 1, denominator: 1 }
    }
}

/// One image, the slot that shows it and its visual weight.
#[derive(Debug)]
pub struct Layer {
    pub slot: Slot,
    pub reference: PhotoReference,
    pub opacity: Opacity,
}

/// A [`Layer`] with its reference as a sequence of characters.
pub struct LayerView {
    pub slot: Slot,
    pub reference: Seq<char>,
    pub opacity: Opacity,
}

impl View for Layer {
    type V = LayerView;

    open spec fn view(&self) -> LayerView {
        LayerView { slot: self.slot, reference: self.reference@, opacity: self.opacity }
    }
}

/// What the host renders: the current image and, during a transition, the
/// image that fades in.
#[derive(Debug)]
pub struct RenderInstruction {
    pub current: Layer,
    pub next: Option<Layer>,
}

/// A [`RenderInstruction`] with its references as sequences of characters.
pub struct InstructionView {
    pub current: LayerView,
    pub next: Option<LayerView>,
}

impl View for RenderInstruction {
    type V = InstructionView;

    open spec fn view(&self) -> InstructionView {
        InstructionView {
            current: self.current@,
            next: match self.next {
                Some(layer) => Some(layer@),
                None => None,
            },
        }
    }
}

impl InstructionView {
    /// Each opacity is a fraction between 0 and 1; two layers lie in different
    /// slots and their opacities add up to 1.
    pub open spec fn is_crossfade(self) -> bool {
        &&& self.current.opacity.is_valid()
        &&& match self.next {
            None => self.current.opacity.numerator == self.current.opacity.denominator,
            Some(incoming) => {
                &&& incoming.opacity.is_valid()
                &&& incoming.slot == self.current.slot.spec_other()
                &&& incoming.opacity.denominator == self.current.opacity.denominator
                &&& incoming.opacity.numerator + self.current.opacity.numerator
                    == self.current.opacity.denominator
            },
        }
    }
}

/// Why no controller could be made.
#[derive(Debug)]
pub enum ControllerError {
    /// The first image could not be loaded.
    InitializationFailed { cause: SourceError },
}

/// The state of a controller, without its loader.
///
/// `next` holds an image exactly while a transition runs. `since` is the time
/// at which the running display period began or, during a transition, the time
/// at which the fade began.
pub struct ControllerState {
    pub current: Seq<char>,
    pub next: Option<Seq<char>>,
    pub active: Slot,
    pub since: u64,
    pub display_duration: u64,
    pub fade_duration: u64,
}

impl ControllerState {
    /// The state of a new controller that shows `first`.
    pub open spec fn initial(first: Seq<char>, display_duration: u64, fade_duration: u64)
        -> ControllerState {
        ControllerState {
            current: first,
            next: None,
            active: Slot::First,
            since: 0,
            display_duration,
            fade_duration,
        }
    }

    /// No transition is running.
    pub open spec fn is_idle(self) -> bool {
        self.next is None
    }

    /// The time that has passed at `now` since the display period or the fade
    /// began. A clock that ran backwards counts as no time.
    pub open spec fn elapsed(self, now: u64) -> int {
        if now >= self.since {
            now - self.since
        } else {
            0
        }
    }

    /// At `now` the controller asks for the next image.
    pub open spec fn fetch_due(self, now: u64) -> bool {
        self.is_idle() && self.elapsed(now) >= self.display_duration
    }

    /// The state after a tick at `now` on which no image is asked for: a fade
    /// that has run its time ends, and the image that faded in becomes the
    /// current one in what was the other slot.
    pub open spec fn settle(self, now: u64) -> ControllerState {
        match self.next {
            Some(incoming) if self.elapsed(now) >= self.fade_duration => ControllerState {
                current: incoming,
                next: None,
                active: self.active.spec_other(),
                since: now,
                ..self
            },
            _ => self,
        }
    }

    /// The state after a tick at `now` on which the next image was asked for
    /// and `fetched` came back. An image starts its fade, or takes over at once
    /// where the fade takes no time. A failure leaves the current image alone
    /// and starts a new display period.
    pub open spec fn begin_transition(self, now: u64, fetched: OutcomeView) -> ControllerState {
        match fetched {
            Ok(incoming) => if self.fade_duration == 0 {
                ControllerState {
                    current: incoming,
                    active: self.active.spec_other(),
                    since: now,
                    ..self
                }
            } else {
                ControllerState { next: Some(incoming), since: now, ..self }
            },
            Err(_) => ControllerState { since: now, ..self },
        }
    }

    /// The state after a tick at `now`, where `fetched` is what the loader
    /// answers if it is asked.
    pub open spec fn advance(self, now: u64, fetched: OutcomeView) -> ControllerState {
        if self.fetch_due(now) {
            self.begin_transition(now, fetched)
        } else {
            self.settle(now)
        }
    }

    /// How far the fade has come at `now`, between 0 and the fade duration.
    pub open spec fn progress(self, now: u64) -> int {
        if self.elapsed(now) >= self.fade_duration {
            self.fade_duration as int
        } else {
            self.elapsed(now)
        }
    }

    /// What is rendered at `now`: the current image alone at full opacity, or
    /// a linear crossfade from the current image to the next.
    pub open spec fn render(self, now: u64) -> InstructionView {
        match self.next {
            None => InstructionView {
                current: LayerView {
                    slot: self.active,
                    reference: self.current,
                    opacity: Opacity::spec_full(),
                },
                next: None,
            },
            Some(incoming) => InstructionView {
                current: LayerView {
                    slot: self.active,
                    reference: self.current,
                    opacity: Opacity {
                        numerator: (self.fade_duration - self.progress(now)) as u64,
                        denominator: self.fade_duration,
                    },
                },
                next: Some(
                    LayerView {
                        slot: self.active.spec_other(),
                        reference: incoming,
                        opacity: Opacity {
                            numerator: self.progress(now) as u64,
                            denominator: self.fade_duration,
                        },
                    },
                ),
            },
        }
    }
}

/// Drives the slideshow: shows one image, and from time to time fades to the
/// next one that its loader yields.
pub struct TransitionController<L: PhotoLoader> {
    loader: L,
    current: PhotoReference,
    next: Option<PhotoReference>,
    active: Slot,
    since: u64,
    display_duration: u64,
    fade_duration: u64,
}

impl<L: PhotoLoader> View for TransitionController<L> {
    type V = ControllerState;

    closed spec fn view(&self) -> ControllerState {
        ControllerState {
            current: self.current@,
            next: match self.next {
                Some(reference) => Some(reference@),
                None => None,
            },
            active: self.active,
            since: self.since,
            display_duration: self.display_duration,
            fade_duration: self.fade_duration,
        }
    }
}

impl<L: PhotoLoader> TransitionController<L> {
    /// A controller that shows `first`, where `first` is what the loader
    /// answered to the first request. Where that request failed there is no
    /// image to show and no controller.
    pub fn with_first_photo(
        loader: L,
        first: Result<PhotoReference, SourceError>,
        display_duration: u64,
        fade_duration: u64,
    ) -> (made: Result<Self, ControllerError>)
        ensures
            match first {
                Ok(reference) => made matches Ok(controller) && controller@
                    == ControllerState::initial(reference@, display_duration, fade_duration),
                Err(error) => made matches Err(ControllerError::InitializationFailed { cause })
                    && cause@ == error@,
            },
    {
        match first {
            Ok(reference) => Ok(
                TransitionController {
                    loader,
                    current: reference,
                    next: None,
                    active: Slot::First,
                    since: 0,
                    display_duration,
                    fade_duration,
                },
            ),
            Err(cause) => Err(ControllerError::InitializationFailed { cause }),
        }
    }

    /// A controller that shows the first image that `loader` yields.
    pub fn new(loader: L, display_duration: u64, fade_duration: u64) -> (made: Result<
        Self,
        ControllerError,
    >)
        ensures
            made matches Ok(controller) ==> exists|first: Seq<char>|
                controller@ == #[trigger] ControllerState::initial(
                    first,
                    display_duration,
                    fade_duration,
                ),
    {
        let mut loader = loader;
        let first = loader.load_next_photo();
        Self::with_first_photo(loader, first, display_duration, fade_duration)
    }

    /// The image that is shown, or that fades out while a transition runs.
    pub fn current(&self) -> (reference: &PhotoReference)
        ensures
            reference@ == self@.current,
    {
        &self.current
    }

    /// Whether no transition is running.
    pub fn is_idle(&self) -> (idle: bool)
        ensures
            idle == self@.is_idle(),
    {
        self.next.is_none()
    }

    fn elapsed(&self, now: u64) -> (elapsed: u64)
        ensures
            elapsed == self@.elapsed(now),
    {
        if now >= self.since {
            now - self.since
        } else {
            0
        }
    }

    /// Whether a tick at `now` asks the loader for the next image.
    pub fn fetch_due(&self, now: u64) -> (due: bool)
        ensures
            due == self@.fetch_due(now),
    {
        self.next.is_none() && self.elapsed(now) >= self.display_duration
    }

    fn settle(&mut self, now: u64)
        ensures
            final(self)@ == old(self)@.settle(now),
    {
        if self.next.is_some() && self.elapsed(now) >= self.fade_duration {
            match self.next.take() {
                Some(incoming) => {
                    self.current = incoming;
                },
                None => {},
            }
            self.active = self.active.other();
            self.since = now;
        }
    }

    fn begin_transition(&mut self, now: u64, fetched: Result<PhotoReference, SourceError>)
        ensures
            final(self)@ == old(self)@.begin_transition(now, outcome_view(fetched)),
    {
        match fetched {
            Ok(incoming) => {
                if self.fade_duration == 0 {
                    self.current = incoming;
                    self.active = self.active.other();
                } else {
                    self.next = Some(incoming);
                }
            },
            Err(_) => {},
        }
        self.since = now;
    }

    fn render(&self, now: u64) -> (instruction: RenderInstruction)
        ensures
            instruction@ == self@.render(now),
    {
        let current = self.current.clone();
        match &self.next {
            None => RenderInstruction {
                current: Layer { slot: self.active, reference: current, opacity: Opacity::full() },
                next: None,
            },
            Some(incoming) => {
                let elapsed = self.elapsed(now);
                let progress = if elapsed >= self.fade_duration {
                    self.fade_duration
                } else {
                    elapsed
                };
                RenderInstruction {
                    current: Layer {
                        slot: self.active,
                        reference: current,
                        opacity: Opacity {
                            numerator: self.fade_duration - progress,
                            denominator: self.fade_duration,
                        },
                    },
                    next: Some(
                        Layer {
                            slot: self.active.other(),
                            reference: incoming.clone(),
                            opacity: Opacity {
                                numerator: progress,
                                denominator: self.fade_duration,
                            },
                        },
                    ),
                }
            },
        }
    }

    /// One tick at `now`, where `fetched` is the loader's answer for the case
    /// that the tick asks for the next image; otherwise `fetched` is dropped.
    pub fn advance(&mut self, now: u64, fetched: Result<PhotoReference, SourceError>) -> (instruction:
        RenderInstruction)
        ensures
            final(self)@ == old(self)@.advance(now, outcome_view(fetched)),
            instruction@ == final(self)@.render(now),
            instruction@.is_crossfade(),
    {
        if self.fetch_due(now) {
            self.begin_transition(now, fetched);
        } else {
            self.settle(now);
        }
        self.render(now)
    }

    /// One tick at `now`: asks the loader for the next image where one is due,
    /// moves the transition on and says what to render.
    pub fn tick(&mut self, now: u64) -> (instruction: RenderInstruction)
        ensures
            exists|fetched: OutcomeView|
                final(self)@ == #[trigger] old(self)@.advance(now, fetched),
            instruction@ == final(self)@.render(now),
            instruction@.is_crossfade(),
    {
        if self.fetch_due(now) {
            let fetched = self.loader.load_next_photo();
            self.begin_transition(now, fetched);
            assert(self@ == old(self)@.advance(now, outcome_view(fetched)));
        } else {
            self.settle(now);
        }
        self.render(now)
    }
}

/// A tick is idempotent: a second tick at the same time leaves the state as the
/// first one left it and renders the same, whatever the loader answers to
/// either. With a display duration of zero an idle controller asks for an image
/// on every tick, so there the law holds only of a first tick that ends in a
/// transition.
pub proof fn lemma_tick_is_idempotent(
    state: ControllerState,
    now: u64,
    first: OutcomeView,
    second: OutcomeView,
)
    requires
        state.display_duration > 0 || !state.advance(now, first).is_idle(),
    ensures
        state.advance(now, first).advance(now, second) == state.advance(now, first),
        state.advance(now, first).advance(now, second).render(now) == state.advance(
            now,
            first,
        ).render(now),
{
}

/// What a tick renders is a crossfade in the sense of
/// [`InstructionView::is_crossfade`]: the current image alone at full
/// opacity, or two images in different slots whose opacities add up to 1. The
/// incoming image is there exactly while a transition runs.
pub proof fn lemma_tick_renders_crossfade(state: ControllerState, now: u64, fetched: OutcomeView)
    ensures
        state.advance(now, fetched).render(now).is_crossfade(),
        state.advance(now, fetched).render(now).next is Some <==> !state.advance(
            now,
            fetched,
        ).is_idle(),
{
}

/// A request that fails leaves the current image and its slot alone: the
/// controller stays idle and starts a new display period at the time of the
/// tick.
pub proof fn lemma_failed_fetch_keeps_current(
    state: ControllerState,
    now: u64,
    error: SourceErrorView,
)
    requires
        state.fetch_due(now),
    ensures
        state.advance(now, Err(error)) == (ControllerState { since: now, ..state }),
        state.advance(now, Err(error)).render(now) == state.render(now),
{
}

/// During a display period nothing changes: a tick before the display
/// duration has passed leaves an idle controller as it is, and the current
/// image is rendered alone.
pub proof fn lemma_idle_until_display_duration(
    state: ControllerState,
    now: u64,
    fetched: OutcomeView,
)
    requires
        state.is_idle(),
        state.elapsed(now) < state.display_duration,
    ensures
        state.advance(now, fetched) == state,
        state.render(now).next is None,
        state.render(now).current.reference == state.current,
{
}

/// Once the display duration has passed, the tick on which the loader yields
/// an image begins the transition: the image waits in the other slot at no
/// opacity while the current one is still shown in full. Where the fade takes
/// no time the image takes over on that tick.
pub proof fn lemma_transition_begins(state: ControllerState, now: u64, incoming: Seq<char>)
    requires
        state.is_idle(),
        state.elapsed(now) >= state.display_duration,
    ensures
        state.fade_duration > 0 ==> {
            &&& state.advance(now, Ok(incoming)) == (ControllerState {
                next: Some(incoming),
                since: now,
                ..state
            })
            &&& state.advance(now, Ok(incoming)).render(now).current.opacity == (Opacity {
                numerator: state.fade_duration,
                denominator: state.fade_duration,
            })
            &&& state.advance(now, Ok(incoming)).render(now).next == Some(
                LayerView {
                    slot: state.active.spec_other(),
                    reference: incoming,
                    opacity: Opacity { numerator: 0, denominator: state.fade_duration },
                },
            )
        },
        state.fade_duration == 0 ==> state.advance(now, Ok(incoming)) == (ControllerState {
            current: incoming,
            active: state.active.spec_other(),
            since: now,
            ..state
        }),
{
}

/// The fade is linear and ends with a swap. A tick during the fade leaves the
/// state alone and renders the incoming image at the share of the fade
/// duration that has passed; the first tick at or after the end of the fade
/// makes the incoming image the current one, in the slot it faded in, and
/// starts its display period.
pub proof fn lemma_fade_is_linear(
    state: ControllerState,
    incoming: Seq<char>,
    now: u64,
    fetched: OutcomeView,
)
    requires
        state.next == Some(incoming),
    ensures
        state.elapsed(now) < state.fade_duration ==> {
            &&& state.advance(now, fetched) == state
            &&& state.render(now).next->Some_0.opacity == (Opacity {
                numerator: state.elapsed(now) as u64,
                denominator: state.fade_duration,
            })
            &&& state.render(now).next->Some_0.reference == incoming
        },
        state.elapsed(now) >= state.fade_duration ==> {
            &&& state.advance(now, fetched).is_idle()
            &&& state.advance(now, fetched).current == incoming
            &&& state.advance(now, fetched).active == state.active.spec_other()
            &&& state.advance(now, fetched).since == now
        },
{
}

} // verus!
