use crate::draw::DrawCommand;
use crate::event::Event;
use crate::state::State;
use crate::state::StateView;
use vstd::prelude::*;

verus! {

/// Where the main loop stands.
#[derive(Clone, Copy, Debug, PartialEq, Eq, Structural)]
pub enum LoopState {
    /// Events are read and frames are drawn.
    Running,
    /// A quit signal came. Nothing happens any more.
    Terminated,
}

/// The main loop as a state machine: the render state, the index of the
/// background texture, and whether the loop still runs.
///
/// Whoever drives it feeds it the input events of each round and carries out
/// the drawing that it plans; the loop itself only decides.
pub struct MainLoop<T> {
    state: State<T>,
    background_texture_idx: usize,
    status: LoopState,
}

/// The mathematical content of a [`MainLoop`].
#[verifier::ext_equal]
pub struct MainLoopView<T> {
    /// The render state.
    pub state: StateView<T>,
    /// The index of the background texture in the registry.
    pub background: nat,
    /// Where the loop stands.
    pub status: LoopState,
}

impl<T> MainLoopView<T> {
    /// The render state is well formed and the background is a registered
    /// texture.
    pub open spec fn wf(self) -> bool {
        &&& self.state.wf()
        &&& self.background < self.state.textures.len()
    }

    /// Whether `event` can be handled: while the loop runs, an event that
    /// selects a pose needs a first character to select it for.
    pub open spec fn accepts(self, event: Event) -> bool {
        (self.status == LoopState::Running && event.pose() is Some)
            ==> self.state.characters.len() > 0
    }

    /// The loop after one event. A terminated loop stays as it is. A running
    /// one terminates on a quit event, sets both selectors of the first
    /// character on an event that selects a pose, and ignores any other.
    pub open spec fn after_event(self, event: Event) -> MainLoopView<T> {
        if self.status == LoopState::Terminated {
            self
        } else if event.is_quit() {
            MainLoopView { status: LoopState::Terminated, ..self }
        } else {
            match event.pose() {
                Some(pose) => MainLoopView { state: self.state.select_pose(0, pose), ..self },
                None => self,
            }
        }
    }

    /// The loop after the events of one batch, taken in order.
    pub open spec fn after_events(self, events: Seq<Event>) -> MainLoopView<T>
        decreases events.len(),
    {
        if events.len() == 0 {
            self
        } else {
            self.after_events(events.drop_last()).after_event(events.last())
        }
    }

    /// Whether every event of the batch can be handled when its turn comes.
    pub open spec fn accepts_all(self, events: Seq<Event>) -> bool
        decreases events.len(),
    {
        events.len() == 0 || (self.accepts_all(events.drop_last()) && self.after_events(
            events.drop_last(),
        ).accepts(events.last()))
    }

    /// How many times the loop goes from running to terminated while the
    /// batch is handled.
    pub open spec fn terminations(self, events: Seq<Event>) -> nat
        decreases events.len(),
    {
        if events.len() == 0 {
            0
        } else {
            self.terminations(events.drop_last()) + if self.after_events(
                events.drop_last(),
            ).status == LoopState::Running && self.after_events(events).status
                == LoopState::Terminated {
                1nat
            } else {
                0nat
            }
        }
    }

    /// The drawing of one frame: the frame buffer is wiped, the background
    /// is stretched over the screen, each character is drawn in order, and
    /// the frame buffer is shown.
    pub open spec fn frame_plan(self) -> Seq<DrawCommand> {
        seq![DrawCommand::Clear, DrawCommand::Fill { texture_idx: self.background as usize }]
            + self.state.draw_commands() + seq![DrawCommand::Present]
    }

    /// Whether `next` can be this loop one frame later: the render state one
    /// frame later, the rest as it was.
    pub open spec fn stepped_to(self, next: MainLoopView<T>) -> bool {
        &&& next.status == self.status
        &&& next.background == self.background
        &&& self.state.stepped_to(next.state)
    }
}

impl<T> View for MainLoop<T> {
    type V = MainLoopView<T>;

    closed spec fn view(&self) -> MainLoopView<T> {
        MainLoopView {
            state: self.state@,
            background: self.background_texture_idx as nat,
            status: self.status,
        }
    }
}

impl<T> MainLoop<T> {
    /// The render state is well formed and the background is a registered
    /// texture; see [`MainLoopView::wf`].
    pub open spec fn wf(&self) -> bool {
        self@.wf()
    }

    /// A running loop over `state` that draws the texture registered under
    /// `background_texture_idx` behind everything else.
    pub fn new(state: State<T>, background_texture_idx: usize) -> (main_loop: Self)
        ensures
            main_loop@ == (MainLoopView {
                state: state@,
                background: background_texture_idx as nat,
                status: LoopState::Running,
            }),
    {
        Self { state, background_texture_idx, status: LoopState::Running }
    }

    /// The render state.
    pub fn state(&self) -> (state: &State<T>)
        ensures
            state@ == self@.state,
    {
        &self.state
    }

    /// The index of the background texture in the registry.
    pub fn background_texture_idx(&self) -> (idx: usize)
        ensures
            idx == self@.background,
    {
        self.background_texture_idx
    }

    /// Where the loop stands.
    pub fn status(&self) -> (status: LoopState)
        ensures
            status == self@.status,
    {
        self.status
    }

    /// Whether the loop still runs.
    pub fn is_running(&self) -> (running: bool)
        ensures
            running == (self@.status == LoopState::Running),
    {
        self.status == LoopState::Running
    }

    /// Whether the loop is well formed, so that a frame can be planned.
    pub fn is_wf(&self) -> (ok: bool)
        ensures
            ok == self.wf(),
    {
        self.state.is_wf() && self.background_texture_idx < self.state.textures().len()
    }

    /// Whether `event` can be handled; see [`MainLoopView::accepts`].
    pub fn accepts(&self, event: Event) -> (ok: bool)
        ensures
            ok == self@.accepts(event),
    {
        if self.status == LoopState::Running && event.selected_pose().is_some() {
            self.state.characters().len() > 0
        } else {
            true
        }
    }

    /// Handles one input event.
    ///
    /// While the loop runs, the window closing or the escape key terminate
    /// it; the keys `A`, `B` and `C` set both selectors of the first
    /// character to 0, 1 and 2; any other event changes nothing. A
    /// terminated loop ignores every event.
    pub fn handle_event(&mut self, event: Event)
        requires
            old(self)@.accepts(event),
        ensures
            final(self)@ == old(self)@.after_event(event),
            final(self)@.status == LoopState::Terminated <==> (old(self)@.status
                == LoopState::Terminated || event.is_quit()),
            (old(self)@.status == LoopState::Running && event.pose() is Some) ==> {
                &&& final(self)@.state.characters[0].active_animation == event.pose()->0
                &&& final(self)@.state.characters[0].active_dest_rect == event.pose()->0
            },
            event.pose() is None ==> final(self)@.state == old(self)@.state,
            old(self)@.status == LoopState::Terminated ==> final(self)@ == old(self)@,
    {
        if self.status == LoopState::Running {
            if event.requests_quit() {
                self.status = LoopState::Terminated;
            } else {
                match event.selected_pose() {
                    Some(pose) => {
                        self.state.select_pose(0, pose);
                    },
                    None => {},
                }
            }
        }
    }

    /// Handles the input events of one round, in order.
    pub fn handle_events(&mut self, events: &Vec<Event>)
        requires
            old(self)@.accepts_all(events@),
        ensures
            final(self)@ == old(self)@.after_events(events@),
    {
        let mut i: usize = 0;
        while i < events.len()
            invariant
                i <= events@.len(),
                old(self)@.accepts_all(events@),
                self@ == old(self)@.after_events(events@.take(i as int)),
            decreases events@.len() - i,
        {
            proof {
                lemma_accepts_all_of_prefix(old(self)@, events@, i + 1);
                assert(events@.take(i + 1).drop_last() =~= events@.take(i as int));
            }
            self.handle_event(events[i]);
            i = i + 1;
        }
        assert(events@.take(i as int) =~= events@);
    }

    /// Plans one frame and lets time pass: wiping the frame buffer, the
    /// background, what [`State::draw`] plans for the characters, whose
    /// animations take one step by the clock, and showing the frame buffer.
    ///
    /// Every command that copies from a texture names a registered one.
    pub fn render(&mut self) -> (plan: Vec<DrawCommand>)
        requires
            old(self).wf(),
        ensures
            plan@ == old(self)@.frame_plan(),
            forall|i: int|
                0 <= i < plan@.len() ==> (#[trigger] plan@[i]).texture_below(
                    final(self)@.state.textures.len(),
                ),
            old(self)@.stepped_to(final(self)@),
            final(self).wf(),
    {
        let mut plan: Vec<DrawCommand> = Vec::new();
        plan.push(DrawCommand::Clear);
        plan.push(DrawCommand::Fill { texture_idx: self.background_texture_idx });
        let mut commands = self.state.draw();
        plan.append(&mut commands);
        plan.push(DrawCommand::Present);
        plan
    }

    /// One round of the loop: handles the input events of the round and,
    /// if the loop still runs after them, plans the frame to draw.
    ///
    /// `None` says that the loop has terminated: nothing is to be drawn, and
    /// nothing is advanced.
    pub fn iterate(&mut self, events: &Vec<Event>) -> (plan: Option<Vec<DrawCommand>>)
        requires
            old(self)@.accepts_all(events@),
            old(self)@.after_events(events@).status == LoopState::Running ==> old(self)@
                .after_events(events@).wf(),
        ensures
            plan is None <==> old(self)@.after_events(events@).status == LoopState::Terminated,
            plan is None ==> final(self)@ == old(self)@.after_events(events@),
            plan is Some ==> {
                &&& plan->0@ == old(self)@.after_events(events@).frame_plan()
                &&& old(self)@.after_events(events@).stepped_to(final(self)@)
                &&& final(self).wf()
                &&& forall|i: int|
                    0 <= i < plan->0@.len() ==> (#[trigger] plan->0@[i]).texture_below(
                        final(self)@.state.textures.len(),
                    )
            },
    {
        self.handle_events(events);
        if self.status == LoopState::Running {
            Some(self.render())
        } else {
            None
        }
    }
}

/// A batch that can be handled can be handled up to any point.
pub proof fn lemma_accepts_all_of_prefix<T>(m: MainLoopView<T>, events: Seq<Event>, n: int)
    requires
        m.accepts_all(events),
        0 <= n <= events.len(),
    ensures
        m.accepts_all(events.take(n)),
    decreases events.len(),
{
    if n == events.len() {
        assert(events.take(n) =~= events);
    } else {
        lemma_accepts_all_of_prefix(m, events.drop_last(), n);
        assert(events.drop_last().take(n) =~= events.take(n));
    }
}

/// Events reach nothing but the status of the loop and the two selectors of
/// the first character: the background, the textures, every other character
/// and the animations and placements of the first one stay as they are.
pub proof fn lemma_events_change_status_and_selectors_only<T>(
    m: MainLoopView<T>,
    events: Seq<Event>,
)
    requires
        m.accepts_all(events),
    ensures
        m.after_events(events).background == m.background,
        m.after_events(events).state.textures == m.state.textures,
        m.after_events(events).state.characters.len() == m.state.characters.len(),
        forall|i: int|
            0 < i < m.state.characters.len() ==> #[trigger] m.after_events(
                events,
            ).state.characters[i] == m.state.characters[i],
        m.state.characters.len() > 0 ==> {
            &&& m.after_events(events).state.characters[0].animations
                == m.state.characters[0].animations
            &&& m.after_events(events).state.characters[0].dest_rects
                == m.state.characters[0].dest_rects
        },
    decreases events.len(),
{
    if events.len() > 0 {
        lemma_events_change_status_and_selectors_only(m, events.drop_last());
    }
}

/// A loop that has a first character can handle every batch of events.
pub proof fn lemma_first_character_accepts_every_batch<T>(m: MainLoopView<T>, events: Seq<Event>)
    requires
        m.state.characters.len() > 0,
    ensures
        m.accepts_all(events),
    decreases events.len(),
{
    if events.len() > 0 {
        lemma_first_character_accepts_every_batch(m, events.drop_last());
        lemma_events_change_status_and_selectors_only(m, events.drop_last());
    }
}

/// A well-formed loop stays well formed under every batch of events, and can
/// handle every batch, if its first character can be drawn in each pose that
/// an event can select.
pub proof fn lemma_loop_with_every_pose_stays_wf<T>(m: MainLoopView<T>, events: Seq<Event>)
    requires
        m.wf(),
        m.state.characters.len() > 0,
        forall|event: Event|
            event.pose() is Some ==> (#[trigger] m.state.characters[0].select(
                event.pose()->0,
            )).drawable(m.state.textures.len()),
    ensures
        m.accepts_all(events),
        m.after_events(events).wf(),
    decreases events.len(),
{
    lemma_first_character_accepts_every_batch(m, events);
    if events.len() > 0 {
        let earlier = events.drop_last();
        let before = m.after_events(earlier);
        lemma_loop_with_every_pose_stays_wf(m, earlier);
        lemma_events_change_status_and_selectors_only(m, earlier);
        if before.status == LoopState::Running && events.last().pose() is Some {
            let pose: nat = events.last().pose()->0;
            assert(before.state.characters[0].select(pose) =~= m.state.characters[0].select(pose));
        }
    }
}

/// Termination is final: a terminated loop is left as it is by any batch of
/// events, and does not terminate again.
pub proof fn lemma_terminated_is_final<T>(m: MainLoopView<T>, events: Seq<Event>)
    requires
        m.status == LoopState::Terminated,
    ensures
        m.after_events(events) == m,
        m.terminations(events) == 0,
    decreases events.len(),
{
    if events.len() > 0 {
        lemma_terminated_is_final(m, events.drop_last());
    }
}

/// A running loop terminates exactly once on a batch that holds a quit
/// event, however many of them the batch holds, and not at all on a batch
/// that holds none.
pub proof fn lemma_quit_terminates_once<T>(m: MainLoopView<T>, events: Seq<Event>)
    requires
        m.status == LoopState::Running,
    ensures
        (exists|i: int| 0 <= i < events.len() && (#[trigger] events[i]).is_quit()) ==> {
            &&& m.after_events(events).status == LoopState::Terminated
            &&& m.terminations(events) == 1
        },
        !(exists|i: int| 0 <= i < events.len() && (#[trigger] events[i]).is_quit()) ==> {
            &&& m.after_events(events).status == LoopState::Running
            &&& m.terminations(events) == 0
        },
    decreases events.len(),
{
    if events.len() > 0 {
        let earlier = events.drop_last();
        lemma_quit_terminates_once(m, earlier);
        if exists|i: int| 0 <= i < earlier.len() && (#[trigger] earlier[i]).is_quit() {
            let i: int = choose|i: int|
                0 <= i < earlier.len() && (#[trigger] earlier[i]).is_quit();
            assert(events[i].is_quit());
        } else if events.last().is_quit() {
            assert(events[events.len() - 1].is_quit());
        } else {
            assert forall|i: int| 0 <= i < events.len() implies !(#[trigger] events[i])
                .is_quit() by {
                if i < earlier.len() {
                    assert(earlier[i] == events[i]);
                }
            }
        }
    }
}

/// Whatever follows the first quit event of a batch is ignored: a running
/// loop ends as the events before that one leave it, terminated.
pub proof fn lemma_events_after_quit_are_ignored<T>(
    m: MainLoopView<T>,
    events: Seq<Event>,
    first: int,
)
    requires
        m.status == LoopState::Running,
        0 <= first < events.len(),
        events[first].is_quit(),
        forall|i: int| 0 <= i < first ==> !(#[trigger] events[i]).is_quit(),
    ensures
        m.after_events(events) == (MainLoopView {
            status: LoopState::Terminated,
            ..m.after_events(events.take(first))
        }),
    decreases events.len(),
{
    let earlier = events.drop_last();
    if first == events.len() - 1 {
        lemma_quit_terminates_once(m, earlier);
    } else {
        lemma_events_after_quit_are_ignored(m, earlier, first);
        assert(earlier.take(first) =~= events.take(first));
    }
}

} // verus!
