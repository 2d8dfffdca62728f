use std::collections::HashSet;
use vstd::prelude::*;

verus! {

broadcast use vstd::std_specs::hash::group_hash_axioms;

/// Returned each frame by the game to say what the loop should do next.
#[derive(Copy, Clone, Debug, PartialEq, Eq, Structural)]
pub enum GameUpdate {
    /// Close the game once this frame has been presented.
    Close,
    /// Carry on with the next frame.
    Nothing,
}

impl Default for GameUpdate {
    fn default() -> (r: Self)
        ensures
            r == GameUpdate::Nothing,
    {
        GameUpdate::Nothing
    }
}

/// A mouse button.
#[derive(Copy, Clone, Debug, PartialEq, Eq, Structural)]
pub enum MouseButton {
    Left,
    Right,
    Middle,
    Other(u16),
}

/// One event of the window, as the frame loop sees it.
///
/// Keys are identified by a numeric key code; events the loop does not
/// handle itself are carried through unchanged as `Other`.
#[derive(Debug)]
pub enum WindowEvent<E> {
    /// The user asked to close the window.
    Closed,
    /// A key went down (`pressed`) or up.
    Key { pressed: bool, key: u32 },
    /// The mouse moved to this pixel position, measured from the window's
    /// top left corner with `y` pointing down.
    MouseMoved(i32, i32),
    /// A mouse button went down (`pressed`) or up.
    MouseInput { pressed: bool, button: MouseButton },
    /// The window now has this size in pixels.
    Resized(u32, u32),
    /// Any other event.
    Other(E),
}

/// Where the loop stands between two calls.
#[derive(Copy, Clone, Debug, PartialEq, Eq, Structural)]
pub enum Phase {
    /// Collecting the events of the next frame.
    Polling,
    /// A frame has begun and has not been presented yet.
    Drawing,
    /// The loop has ended; no frame follows.
    Closed,
}

/// What polling has gathered so far for the coming frame.
pub ghost struct Polled<E> {
    /// The keys held down.
    pub down: Set<u32>,
    /// Twice the mouse position relative to the window centre, `y` up.
    pub mouse: (int, int),
    /// Key transitions of this frame, in order.
    pub key_events: Seq<(bool, u32)>,
    /// Mouse button transitions of this frame, in order.
    pub mouse_events: Seq<(bool, MouseButton)>,
    /// Unhandled events of this frame, in order.
    pub misc: Seq<E>,
    /// The size of the last resize event of this frame, not yet applied.
    pub resize: Option<(u32, u32)>,
    /// Whether a close request came in this frame.
    pub close: bool,
}

/// The abstract state of a `FrameLoop`.
pub ghost struct LoopModel<E> {
    pub polled: Polled<E>,
    /// The window size in pixels that positions are measured against.
    pub size: (u32, u32),
    pub phase: Phase,
    /// Clock reading at the start of the current frame, in nanoseconds.
    pub last_nanos: u64,
    /// Frames begun so far.
    pub begun: nat,
    /// Frames presented so far.
    pub presented: nat,
}

/// Twice the position of pixel `(x, y)` relative to the centre of a window of
/// `size`, with `y` pointing up. Doubling keeps it exact for odd sizes.
pub open spec fn centered_x2(x: int, y: int, size: (u32, u32)) -> (int, int) {
    (2 * x - size.0, size.1 - 2 * y)
}

/// The effect of one event on what polling has gathered.
///
/// A press of a key that is already down changes nothing; a release is
/// recorded whether or not the key was down. Mouse positions are taken
/// against `size`, the size before any resize of this batch.
pub open spec fn step<E>(p: Polled<E>, size: (u32, u32), ev: WindowEvent<E>) -> Polled<E> {
    match ev {
        WindowEvent::Closed => Polled { close: true, ..p },
        WindowEvent::Key { pressed, key } => {
            if pressed && p.down.contains(key) {
                p
            } else if pressed {
                Polled { down: p.down.insert(key), key_events: p.key_events.push((true, key)), ..p }
            } else {
                Polled { down: p.down.remove(key), key_events: p.key_events.push((false, key)), ..p }
            }
        },
        WindowEvent::MouseMoved(x, y) => Polled { mouse: centered_x2(x as int, y as int, size), ..p },
        WindowEvent::MouseInput { pressed, button } => Polled {
            mouse_events: p.mouse_events.push((pressed, button)),
            ..p
        },
        WindowEvent::Resized(w, h) => Polled { resize: Some((w, h)), ..p },
        WindowEvent::Other(e) => Polled { misc: p.misc.push(e), ..p },
    }
}

/// The effect of a batch of events, taken in order.
pub open spec fn steps<E>(p: Polled<E>, size: (u32, u32), evs: Seq<WindowEvent<E>>) -> Polled<E>
    decreases evs.len(),
{
    if evs.len() == 0 {
        p
    } else {
        step(steps(p, size, evs.drop_last()), size, evs.last())
    }
}

/// Polling state at the start of a frame: the held keys carry over, the
/// frame's own lists start empty.
pub open spec fn fresh<E>(down: Set<u32>, mouse: (int, int)) -> Polled<E> {
    Polled {
        down,
        mouse,
        key_events: Seq::empty(),
        mouse_events: Seq::empty(),
        misc: Seq::empty(),
        resize: None,
        close: false,
    }
}

/// A key that is down stays down through any batch of events that holds no
/// release of it.
pub proof fn lemma_held_key_stays_down<E>(p: Polled<E>, size: (u32, u32), evs: Seq<WindowEvent<E>>, key: u32)
    requires
        p.down.contains(key),
        forall|i: int| 0 <= i < evs.len() ==> evs[i] != (WindowEvent::<E>::Key { pressed: false, key }),
    ensures
        steps(p, size, evs).down.contains(key),
    decreases evs.len(),
{
    if evs.len() > 0 {
        let rest = evs.drop_last();
        assert forall|i: int| 0 <= i < rest.len() implies rest[i] != (WindowEvent::<E>::Key { pressed: false, key }) by {
            assert(rest[i] == evs[i]);
        }
        lemma_held_key_stays_down(p, size, rest, key);
        assert(evs.last() == evs[evs.len() - 1]);
    }
}

/// A key pressed in a batch is down at the end of it unless a later event of
/// the batch releases it.
pub proof fn lemma_pressed_key_is_down<E>(
    p: Polled<E>,
    size: (u32, u32),
    before: Seq<WindowEvent<E>>,
    after: Seq<WindowEvent<E>>,
    key: u32,
)
    requires
        forall|i: int| 0 <= i < after.len() ==> after[i] != (WindowEvent::<E>::Key { pressed: false, key }),
    ensures
        steps(p, size, before.push(WindowEvent::Key { pressed: true, key }) + after).down.contains(key),
{
    let pressed = before.push(WindowEvent::Key { pressed: true, key });
    assert(pressed.drop_last() =~= before);
    assert(steps(p, size, pressed).down.contains(key));
    lemma_steps_append(p, size, pressed, after);
    lemma_held_key_stays_down(steps(p, size, pressed), size, after, key);
}

/// Handling a batch is handling its first part, then the rest.
pub proof fn lemma_steps_append<E>(p: Polled<E>, size: (u32, u32), a: Seq<WindowEvent<E>>, b: Seq<WindowEvent<E>>)
    ensures
        steps(p, size, a + b) == steps(steps(p, size, a), size, b),
    decreases b.len(),
{
    if b.len() == 0 {
        assert(a + b =~= a);
    } else {
        assert((a + b).drop_last() =~= a + b.drop_last());
        lemma_steps_append(p, size, a, b.drop_last());
    }
}

/// Which keys are down after a batch depends only on which were down
/// before it: not on the mouse, the window size or the frame's lists.
pub proof fn lemma_keys_depend_on_keys_only<E>(
    p: Polled<E>,
    q: Polled<E>,
    p_size: (u32, u32),
    q_size: (u32, u32),
    evs: Seq<WindowEvent<E>>,
)
    requires
        p.down == q.down,
    ensures
        steps(p, p_size, evs).down == steps(q, q_size, evs).down,
    decreases evs.len(),
{
    if evs.len() > 0 {
        lemma_keys_depend_on_keys_only(p, q, p_size, q_size, evs.drop_last());
    }
}

/// A key that is up stays up through any batch of events that holds no
/// press of it.
pub proof fn lemma_up_key_stays_up<E>(p: Polled<E>, size: (u32, u32), evs: Seq<WindowEvent<E>>, key: u32)
    requires
        !p.down.contains(key),
        forall|i: int| 0 <= i < evs.len() ==> evs[i] != (WindowEvent::<E>::Key { pressed: true, key }),
    ensures
        !steps(p, size, evs).down.contains(key),
    decreases evs.len(),
{
    if evs.len() > 0 {
        let rest = evs.drop_last();
        assert forall|i: int| 0 <= i < rest.len() implies rest[i] != (WindowEvent::<E>::Key { pressed: true, key }) by {
            assert(rest[i] == evs[i]);
        }
        lemma_up_key_stays_up(p, size, rest, key);
        assert(evs.last() == evs[evs.len() - 1]);
    }
}

/// A key released in a batch is up at the end of it unless a later event of
/// the batch presses it again.
pub proof fn lemma_released_key_is_up<E>(
    p: Polled<E>,
    size: (u32, u32),
    before: Seq<WindowEvent<E>>,
    after: Seq<WindowEvent<E>>,
    key: u32,
)
    requires
        forall|i: int| 0 <= i < after.len() ==> after[i] != (WindowEvent::<E>::Key { pressed: true, key }),
    ensures
        !steps(p, size, before.push(WindowEvent::Key { pressed: false, key }) + after).down.contains(key),
{
    let released = before.push(WindowEvent::Key { pressed: false, key });
    assert(released.drop_last() =~= before);
    assert(!steps(p, size, released).down.contains(key));
    lemma_steps_append(p, size, released, after);
    lemma_up_key_stays_up(steps(p, size, released), size, after, key);
}

/// The keys down after a run of frames whose polled batches are `batches`,
/// starting with the keys `down`. Each frame starts from the keys the last
/// one ended with (`begin_frame` and `end_frame` leave them as they are).
pub open spec fn keys_after<E>(down: Set<u32>, batches: Seq<Seq<WindowEvent<E>>>) -> Set<u32>
    decreases batches.len(),
{
    if batches.len() == 0 {
        down
    } else {
        steps(fresh(keys_after(down, batches.drop_last()), (0, 0)), (0, 0), batches.last()).down
    }
}

/// A key that is down stays down for every following frame, however many,
/// as long as no batch of them releases it.
pub proof fn lemma_held_key_stays_down_across_frames<E>(
    down: Set<u32>,
    batches: Seq<Seq<WindowEvent<E>>>,
    key: u32,
)
    requires
        down.contains(key),
        forall|b: int, i: int|
            0 <= b < batches.len() && 0 <= i < batches[b].len() ==> batches[b][i] != (WindowEvent::<E>::Key {
                pressed: false,
                key,
            }),
    ensures
        forall|m: int| 0 <= m <= batches.len() ==> #[trigger] keys_after(down, batches.take(m)).contains(key),
    decreases batches.len(),
{
    if batches.len() > 0 {
        let rest = batches.drop_last();
        assert forall|b: int, i: int|
            0 <= b < rest.len() && 0 <= i < rest[b].len() implies rest[b][i] != (WindowEvent::<E>::Key {
                pressed: false,
                key,
            }) by {
            assert(rest[b] == batches[b]);
        }
        lemma_held_key_stays_down_across_frames(down, rest, key);
        assert forall|m: int| 0 <= m <= batches.len() implies #[trigger] keys_after(down, batches.take(m)).contains(key) by {
            if m < batches.len() {
                assert(batches.take(m) =~= rest.take(m));
            } else {
                assert(batches.take(m) =~= batches);
                assert(batches.drop_last() =~= rest);
                assert(rest.take(rest.len() as int) =~= rest);
                let last = batches.last();
                assert(last == batches[batches.len() - 1]);
                assert forall|i: int| 0 <= i < last.len() implies last[i] != (WindowEvent::<E>::Key { pressed: false, key }) by {
                    assert(last[i] == batches[batches.len() - 1][i]);
                }
                lemma_held_key_stays_down(fresh(keys_after(down, rest), (0, 0)), (0, 0), last, key);
            }
        }
    } else {
        assert forall|m: int| 0 <= m <= batches.len() implies #[trigger] keys_after(down, batches.take(m)).contains(key) by {
            assert(batches.take(m) =~= batches);
        }
    }
}

/// A press of a key that is already down adds no transition and changes
/// nothing else either.
pub proof fn lemma_repeated_press_is_silent<E>(p: Polled<E>, size: (u32, u32), evs: Seq<WindowEvent<E>>, key: u32)
    requires
        steps(p, size, evs).down.contains(key),
    ensures
        steps(p, size, evs.push(WindowEvent::Key { pressed: true, key })) == steps(p, size, evs),
{
    assert(evs.push(WindowEvent::Key { pressed: true, key }).drop_last() =~= evs);
}

/// A key pressed and then released within one batch, while it was not down,
/// gives the transitions `(true, key)` then `(false, key)` and is not down
/// afterwards.
pub proof fn lemma_press_release<E>(p: Polled<E>, size: (u32, u32), key: u32)
    requires
        !p.down.contains(key),
    ensures
        ({
            let q = steps(
                p,
                size,
                seq![WindowEvent::Key { pressed: true, key }, WindowEvent::Key { pressed: false, key }],
            );
            &&& q.key_events == p.key_events.push((true, key)).push((false, key))
            &&& !q.down.contains(key)
        }),
{
    let evs = seq![WindowEvent::<E>::Key { pressed: true, key }, WindowEvent::Key { pressed: false, key }];
    assert(evs.drop_last().drop_last() =~= Seq::<WindowEvent<E>>::empty());
    assert(evs.drop_last() =~= seq![WindowEvent::<E>::Key { pressed: true, key }]);
    let q1 = steps(p, size, evs.drop_last());
    assert(steps(p, size, evs.drop_last().drop_last()) == p);
    assert(q1 == step(p, size, WindowEvent::Key { pressed: true, key }));
    assert(q1.down.contains(key));
    assert(steps(p, size, evs) == step(q1, size, WindowEvent::Key { pressed: false, key }));
}

/// Polling never changes the size that positions are measured against: a
/// resize only becomes pending, and the last one of the batch is the one that
/// `begin_frame` applies.
pub proof fn lemma_resize_is_deferred<E>(
    p: Polled<E>,
    size: (u32, u32),
    evs: Seq<WindowEvent<E>>,
    w: u32,
    h: u32,
    after: Seq<WindowEvent<E>>,
)
    requires
        forall|i: int| 0 <= i < after.len() ==> !(after[i] is Resized),
    ensures
        steps(p, size, evs.push(WindowEvent::Resized(w, h)) + after).resize == Some((w, h)),
    decreases after.len(),
{
    let pushed = evs.push(WindowEvent::<E>::Resized(w, h));
    assert(pushed.drop_last() =~= evs);
    if after.len() > 0 {
        let rest = after.drop_last();
        assert((pushed + after).drop_last() =~= pushed + rest);
        assert forall|i: int| 0 <= i < rest.len() implies !(rest[i] is Resized) by {
            assert(rest[i] == after[i]);
        }
        lemma_resize_is_deferred(p, size, evs, w, h, rest);
        assert(after.last() == after[after.len() - 1]);
    } else {
        assert(pushed + after =~= pushed);
    }
}

/// The events of one frame, as `begin_frame` hands them out.
pub struct FrameEvents<E> {
    /// Nanoseconds since the previous frame began (for the first frame:
    /// since the loop started).
    pub delta_nanos: u64,
    /// Twice the last mouse position relative to the window centre, `y` up.
    pub mouse_pos_x2: (i64, i64),
    /// Key transitions, in order.
    pub key_events: Vec<(bool, u32)>,
    /// Mouse button transitions, in order.
    pub mouse_events: Vec<(bool, MouseButton)>,
    /// Events the loop did not handle, in order.
    pub misc_events: Vec<E>,
}

/// What the game sees of one frame: its events, and the set of keys held
/// down, borrowed from the loop.
pub struct FrameInfo<'a, E> {
    /// Nanoseconds since the previous frame began (for the first frame:
    /// since the loop started).
    pub delta_nanos: u64,
    /// Twice the last mouse position relative to the window centre, `y` up.
    pub mouse_pos_x2: (i64, i64),
    key_events: Vec<(bool, u32)>,
    mouse_events: Vec<(bool, MouseButton)>,
    misc_events: Vec<E>,
    down_keys: &'a HashSet<u32>,
}

/// The abstract content of a `FrameInfo`.
pub ghost struct FrameView<E> {
    pub delta_nanos: u64,
    pub mouse: (int, int),
    pub key_events: Seq<(bool, u32)>,
    pub mouse_events: Seq<(bool, MouseButton)>,
    pub misc: Seq<E>,
    pub down: Set<u32>,
}

impl<'a, E> View for FrameInfo<'a, E> {
    type V = FrameView<E>;

    closed spec fn view(&self) -> FrameView<E> {
        FrameView {
            delta_nanos: self.delta_nanos,
            mouse: (self.mouse_pos_x2.0 as int, self.mouse_pos_x2.1 as int),
            key_events: self.key_events@,
            mouse_events: self.mouse_events@,
            misc: self.misc_events@,
            down: self.down_keys@,
        }
    }
}

impl<'a, E> FrameInfo<'a, E> {
    /// Returns the key transitions of this frame, in order: `(true, key)` for
    /// a press, `(false, key)` for a release.
    pub fn get_key_events(&self) -> (r: &[(bool, u32)])
        ensures
            r@ == self@.key_events,
    {
        self.key_events.as_slice()
    }

    /// Returns the mouse button transitions of this frame, in order.
    pub fn get_mouse_events(&self) -> (r: &[(bool, MouseButton)])
        ensures
            r@ == self@.mouse_events,
    {
        self.mouse_events.as_slice()
    }

    /// Returns the events of this frame that the loop did not handle, in order.
    pub fn get_misc_events(&self) -> (r: &[E])
        ensures
            r@ == self@.misc,
    {
        self.misc_events.as_slice()
    }

    /// Checks whether a key is held down.
    pub fn is_down(&self, key: u32) -> (r: bool)
        ensures
            r == self@.down.contains(key),
    {
        self.down_keys.contains(&key)
    }
}

/// The decisions of the frame loop: which keys are down, what each frame
/// sees, when the window size changes and when the loop ends.
///
/// The caller drives it: it hands over each polled event with
/// `handle_event`, begins the frame with `begin_frame`, lets the game draw,
/// presents the frame and reports the game's answer with `end_frame`.
pub struct FrameLoop<E> {
    down_keys: HashSet<u32>,
    width: u32,
    height: u32,
    mouse_pos_x2: (i64, i64),
    key_events: Vec<(bool, u32)>,
    mouse_events: Vec<(bool, MouseButton)>,
    misc_events: Vec<E>,
    resized: Option<(u32, u32)>,
    close_requested: bool,
    phase: Phase,
    last_nanos: u64,
    begun: Ghost<nat>,
    presented: Ghost<nat>,
}

impl<E> View for FrameLoop<E> {
    type V = LoopModel<E>;

    closed spec fn view(&self) -> LoopModel<E> {
        LoopModel {
            polled: Polled {
                down: self.down_keys@,
                mouse: (self.mouse_pos_x2.0 as int, self.mouse_pos_x2.1 as int),
                key_events: self.key_events@,
                mouse_events: self.mouse_events@,
                misc: self.misc_events@,
                resize: self.resized,
                close: self.close_requested,
            },
            size: (self.width, self.height),
            phase: self.phase,
            last_nanos: self.last_nanos,
            begun: self.begun@,
            presented: self.presented@,
        }
    }
}

impl<E> FrameLoop<E> {
    /// The loop's internal consistency: every frame begun has been presented
    /// but for the one being drawn.
    pub closed spec fn wf(&self) -> bool {
        &&& self.begun@ == self.presented@ + if self.phase == Phase::Drawing {
            1int
        } else {
            0int
        }
    }

    /// Every frame that has begun has been presented exactly once, unless it
    /// is the one being drawn: between frames the two counts agree, and
    /// while a frame is drawn exactly one presentation is outstanding.
    pub proof fn lemma_frames_presented(&self)
        requires
            self.wf(),
        ensures
            self@.phase != Phase::Drawing ==> self@.presented == self@.begun,
            self@.phase == Phase::Drawing ==> self@.presented + 1 == self@.begun,
    {
    }

    /// Starts a loop for a window of `width` by `height` pixels, with no key
    /// down and the mouse at the centre.
    pub fn new(width: u32, height: u32) -> (r: Self)
        ensures
            r.wf(),
            r@ == (LoopModel::<E> {
                polled: fresh(Set::empty(), (0, 0)),
                size: (width, height),
                phase: Phase::Polling,
                last_nanos: 0,
                begun: 0,
                presented: 0,
            }),
    {
        let r = FrameLoop {
            down_keys: HashSet::new(),
            width,
            height,
            mouse_pos_x2: (0, 0),
            key_events: Vec::new(),
            mouse_events: Vec::new(),
            misc_events: Vec::new(),
            resized: None,
            close_requested: false,
            phase: Phase::Polling,
            last_nanos: 0,
            begun: Ghost(0),
            presented: Ghost(0),
        };
        r
    }

    /// Takes one polled event into account for the coming frame.
    pub fn handle_event(&mut self, ev: WindowEvent<E>)
        requires
            old(self).wf(),
            old(self)@.phase == Phase::Polling,
        ensures
            final(self).wf(),
            final(self)@ == (LoopModel {
                polled: step(old(self)@.polled, old(self)@.size, ev),
                ..old(self)@
            }),
    {
        match ev {
            WindowEvent::Closed => {
                self.close_requested = true;
            },
            WindowEvent::Key { pressed, key } => {
                if pressed {
                    if !self.down_keys.contains(&key) {
                        self.down_keys.insert(key);
                        self.key_events.push((true, key));
                    }
                } else {
                    self.down_keys.remove(&key);
                    self.key_events.push((false, key));
                }
            },
            WindowEvent::MouseMoved(x, y) => {
                self.mouse_pos_x2 = centered_x2_of(x, y, self.width, self.height);
            },
            WindowEvent::MouseInput { pressed, button } => {
                self.mouse_events.push((pressed, button));
            },
            WindowEvent::Resized(w, h) => {
                self.resized = Some((w, h));
            },
            WindowEvent::Other(e) => {
                self.misc_events.push(e);
            },
        }
    }

    /// Takes a batch of polled events into account, in order.
    pub fn handle_events(&mut self, events: Vec<WindowEvent<E>>)
        requires
            old(self).wf(),
            old(self)@.phase == Phase::Polling,
        ensures
            final(self).wf(),
            final(self)@ == (LoopModel {
                polled: steps(old(self)@.polled, old(self)@.size, events@),
                ..old(self)@
            }),
    {
        let ghost all = events@;
        let ghost start = self@;
        let mut events = events;
        while events.len() > 0
            invariant
                self.wf(),
                start.phase == Phase::Polling,
                0 <= events@.len() <= all.len(),
                events@ == all.subrange(all.len() - events@.len(), all.len() as int),
                self@ == (LoopModel {
                    polled: steps(start.polled, start.size, all.subrange(0, all.len() - events@.len())),
                    ..start
                }),
            decreases events.len(),
        {
            let ghost done = all.len() - events@.len();
            let ev = events.remove(0);
            assert(ev == all[done]);
            self.handle_event(ev);
            assert(all.subrange(0, done + 1).drop_last() =~= all.subrange(0, done));
            assert(events@ =~= all.subrange(all.len() - events@.len(), all.len() as int));
        }
        assert(all.subrange(0, all.len() as int) =~= all);
    }

    /// Ends polling and begins a frame at clock reading `now_nanos` (a
    /// monotonic clock, in nanoseconds since the loop started).
    ///
    /// The frame sees what polling gathered; the last resize of the batch is
    /// applied now, after polling and before anything is drawn.
    pub fn begin_frame(&mut self, now_nanos: u64) -> (events: FrameEvents<E>)
        requires
            old(self).wf(),
            old(self)@.phase == Phase::Polling,
            old(self)@.last_nanos <= now_nanos,
        ensures
            final(self).wf(),
            events.delta_nanos == now_nanos - old(self)@.last_nanos,
            (events.mouse_pos_x2.0 as int, events.mouse_pos_x2.1 as int) == old(self)@.polled.mouse,
            events.key_events@ == old(self)@.polled.key_events,
            events.mouse_events@ == old(self)@.polled.mouse_events,
            events.misc_events@ == old(self)@.polled.misc,
            final(self)@ == (LoopModel {
                polled: Polled {
                    key_events: Seq::empty(),
                    mouse_events: Seq::empty(),
                    misc: Seq::empty(),
                    resize: None,
                    ..old(self)@.polled
                },
                size: match old(self)@.polled.resize {
                    Some(size) => size,
                    None => old(self)@.size,
                },
                phase: Phase::Drawing,
                last_nanos: now_nanos,
                begun: old(self)@.begun + 1,
                ..old(self)@
            }),
    {
        if let Some((w, h)) = self.resized {
            self.width = w;
            self.height = h;
        }
        self.resized = None;
        let mut key_events = Vec::new();
        std::mem::swap(&mut key_events, &mut self.key_events);
        let mut mouse_events = Vec::new();
        std::mem::swap(&mut mouse_events, &mut self.mouse_events);
        let mut misc_events = Vec::new();
        std::mem::swap(&mut misc_events, &mut self.misc_events);
        let events = FrameEvents {
            delta_nanos: now_nanos - self.last_nanos,
            mouse_pos_x2: self.mouse_pos_x2,
            key_events,
            mouse_events,
            misc_events,
        };
        self.last_nanos = now_nanos;
        self.phase = Phase::Drawing;
        self.begun = Ghost(self.begun@ + 1);
        events
    }

    /// Pairs a frame's events with the keys held down now, for the game.
    pub fn frame_info(&self, events: FrameEvents<E>) -> (info: FrameInfo<'_, E>)
        ensures
            info@ == (FrameView {
                delta_nanos: events.delta_nanos,
                mouse: (events.mouse_pos_x2.0 as int, events.mouse_pos_x2.1 as int),
                key_events: events.key_events@,
                mouse_events: events.mouse_events@,
                misc: events.misc_events@,
                down: self@.polled.down,
            }),
    {
        FrameInfo {
            delta_nanos: events.delta_nanos,
            mouse_pos_x2: events.mouse_pos_x2,
            key_events: events.key_events,
            mouse_events: events.mouse_events,
            misc_events: events.misc_events,
            down_keys: &self.down_keys,
        }
    }

    /// Records that the frame has been presented and that the game answered
    /// `update`. Returns whether the loop goes on: it ends when the game
    /// answered `Close` or a close request came in during this frame's polling.
    pub fn end_frame(&mut self, update: GameUpdate) -> (running: bool)
        requires
            old(self).wf(),
            old(self)@.phase == Phase::Drawing,
        ensures
            final(self).wf(),
            running == !(update == GameUpdate::Close || old(self)@.polled.close),
            final(self)@ == (LoopModel {
                polled: Polled { close: false, ..old(self)@.polled },
                phase: if running {
                    Phase::Polling
                } else {
                    Phase::Closed
                },
                presented: old(self)@.presented + 1,
                ..old(self)@
            }),
    {
        let running = !(update == GameUpdate::Close || self.close_requested);
        self.close_requested = false;
        self.phase = if running {
            Phase::Polling
        } else {
            Phase::Closed
        };
        self.presented = Ghost(self.presented@ + 1);
        running
    }

    /// Returns where the loop stands.
    pub fn phase(&self) -> (r: Phase)
        ensures
            r == self@.phase,
    {
        self.phase
    }

    /// Returns `false` once the loop has ended.
    pub fn is_running(&self) -> (r: bool)
        ensures
            r == (self@.phase != Phase::Closed),
    {
        self.phase != Phase::Closed
    }

    /// Returns the window size in pixels that the loop currently measures
    /// positions against.
    pub fn window_size(&self) -> (r: (u32, u32))
        ensures
            r == self@.size,
    {
        (self.width, self.height)
    }

    /// Checks whether a key is held down.
    pub fn is_down(&self, key: u32) -> (r: bool)
        ensures
            r == self@.polled.down.contains(key),
    {
        self.down_keys.contains(&key)
    }
}

/// Twice the position of pixel `(x, y)` relative to the centre of a window
/// of `width` by `height` pixels, with `y` pointing up.
pub fn centered_x2_of(x: i32, y: i32, width: u32, height: u32) -> (r: (i64, i64))
    ensures
        (r.0 as int, r.1 as int) == centered_x2(x as int, y as int, (width, height)),
{
    (2 * (x as i64) - width as i64, height as i64 - 2 * (y as i64))
}

} // verus!
