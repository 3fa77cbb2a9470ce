//! The translator: from one raw event, and what the display server answers
//! to the questions the event raises, to at most one event for the policy
//! layer.
//!
//! A translation goes in steps. [`begin`] takes the raw event and either
//! ends at once or names a question for the display server. Whoever owns the
//! connection asks it and hands the reply to [`Pending::resume`], which ends
//! the translation or names the next question. No step fails: an event that
//! has no translation, a window that is gone by the time it is asked about,
//! and a reply that does not fit the question all end in no event.

use vstd::prelude::*;
use crate::adapter::{AdapterState, Connection, Reply, ReplyView, Request};
use crate::client_message;
use crate::event::{DisplayEvent, DisplayEventView, ModMask, event_view};
use crate::mode::motion_event;
use crate::property_notify;
use crate::property_notify::PropertyQuery;
use crate::raw::{RawEvent, RawEventView};
use crate::window::{Window, WindowHandle, WindowView};

verus! {

/// Where a translation stands while it waits for a reply.
pub enum StageView {
    /// A window asked to be shown; the server is being told to report on it.
    Subscribe { window: u64 },
    /// The new window's attributes are being asked for.
    Attrs { window: u64 },
    /// The new window's title is being asked for.
    Name { window: u64 },
    /// The new window's transient parent is being asked for.
    Transient(WindowView),
    /// The new window's size hint is being asked for.
    SizeHint(WindowView),
    /// The new window's type is being asked for.
    Type(WindowView),
    /// The pointer or the focus entered a window; the pointer's position is
    /// being asked for.
    Pointer { window: u64 },
    /// A key went down with these modifiers; its symbol is being asked for.
    Keysym { state: ModMask, keycode: u32 },
    /// A property changed; its new value is being asked for.
    Property(PropertyQuery),
}

/// How far a translation has come.
pub enum StepView {
    /// It has ended, in this event or in none.
    Done(Option<DisplayEventView>),
    /// It waits for the reply to the question of this stage.
    Pending(StageView),
}

impl StageView {
    /// The question whose reply the stage waits for.
    pub open spec fn request(self) -> Request {
        match self {
            StageView::Subscribe { window } => Request::SubscribeToWindowEvents(
                WindowHandle::XlibHandle(window),
            ),
            StageView::Attrs { window } => Request::GetWindowAttrs(window),
            StageView::Name { window } => Request::GetWindowName(window),
            StageView::Transient(w) => Request::GetTransientFor(w.handle.id()),
            StageView::SizeHint(w) => Request::GetHintSizingAsTuple(w.handle.id()),
            StageView::Type(w) => Request::GetWindowType(w.handle.id()),
            StageView::Pointer { .. } => Request::GetPointerLocation,
            StageView::Keysym { keycode, .. } => Request::KeycodeToKeysym(keycode),
            StageView::Property(query) => query.spec_request(),
        }
    }

    /// The step that follows when `reply` comes back.
    ///
    /// A new window is first subscribed to and only then looked at. If its
    /// attributes cannot be had, or say that it places itself, the
    /// translation ends in no event. Otherwise its title, transient parent,
    /// size hint and type are fetched, in this order, and only the complete
    /// window is handed out. A reply of another kind than the stage waits
    /// for ends the translation in no event.
    pub open spec fn resumed(self, reply: ReplyView) -> StepView {
        match (self, reply) {
            (StageView::Subscribe { window }, ReplyView::Subscribed) => StepView::Pending(
                StageView::Attrs { window },
            ),
            (StageView::Attrs { window }, ReplyView::WindowAttrs(Ok(attrs))) => {
                if attrs.is_override_redirect() {
                    StepView::Done(None)
                } else {
                    StepView::Pending(StageView::Name { window })
                }
            },
            (StageView::Name { window }, ReplyView::WindowName(name)) => StepView::Pending(
                StageView::Transient(WindowView::new(WindowHandle::XlibHandle(window), name)),
            ),
            (StageView::Transient(w), ReplyView::TransientFor(parent)) => StepView::Pending(
                StageView::SizeHint(w.with_transient(parent)),
            ),
            (StageView::SizeHint(w), ReplyView::HintSizing(size)) => StepView::Pending(
                StageView::Type(w.with_floating_size(size)),
            ),
            (StageView::Type(w), ReplyView::WindowType(type_)) => StepView::Done(
                Some(DisplayEventView::WindowCreate(w.with_type(type_))),
            ),
            (StageView::Pointer { window }, ReplyView::PointerLocation(Some(at))) => StepView::Done(
                Some(DisplayEventView::FocusedWindow(WindowHandle::XlibHandle(window), at.0, at.1)),
            ),
            (StageView::Keysym { state, .. }, ReplyView::Keysym(sym)) => StepView::Done(
                Some(DisplayEventView::KeyCombo(state, sym)),
            ),
            (StageView::Property(query), reply) => StepView::Done(query.resumed(reply)),
            _ => StepView::Done(None),
        }
    }
}

/// The first step of the translation of `raw` while the connection's state
/// is `state`: the outcome, for the kinds of event that raise no question,
/// and the first question for the others.
///
/// Every kind of event has its line here. Those after `MotionNotify`
/// translate to nothing.
pub open spec fn first_step(state: AdapterState, raw: RawEventView) -> StepView {
    match raw {
        RawEventView::MapRequest { window } => StepView::Pending(StageView::Subscribe { window }),
        RawEventView::DestroyNotify { window } => StepView::Done(
            Some(DisplayEventView::WindowDestroy(WindowHandle::XlibHandle(window))),
        ),
        RawEventView::ClientMessage(message) => StepView::Done(
            client_message::translated(state.atoms, message),
        ),
        RawEventView::PropertyNotify(event) => match property_notify::query_for(
            state.atoms,
            event,
        ) {
            Some(query) => StepView::Pending(StageView::Property(query)),
            None => StepView::Done(None),
        },
        RawEventView::ButtonPress { state: modifiers, button, window } => StepView::Done(
            Some(DisplayEventView::MouseCombo(modifiers, button, WindowHandle::XlibHandle(window))),
        ),
        RawEventView::ButtonRelease => StepView::Done(Some(DisplayEventView::ChangeToNormalMode)),
        RawEventView::EnterNotify { window } => StepView::Pending(StageView::Pointer { window }),
        RawEventView::FocusIn { window } => StepView::Pending(StageView::Pointer { window }),
        RawEventView::KeyPress { state: modifiers, keycode } => StepView::Pending(
            StageView::Keysym { state: modifiers, keycode },
        ),
        RawEventView::MotionNotify { window, x_root, y_root } => StepView::Done(
            Some(motion_event(state.mode, state.mode_origin, window, x_root, y_root)),
        ),
        RawEventView::UnmapNotify => StepView::Done(None),
        RawEventView::CreateNotify => StepView::Done(None),
        RawEventView::MapNotify => StepView::Done(None),
        RawEventView::LeaveNotify => StepView::Done(None),
        RawEventView::FocusOut => StepView::Done(None),
        RawEventView::KeyRelease => StepView::Done(None),
        RawEventView::KeymapNotify => StepView::Done(None),
        RawEventView::Expose => StepView::Done(None),
        RawEventView::GraphicsExpose => StepView::Done(None),
        RawEventView::NoExpose => StepView::Done(None),
        RawEventView::VisibilityNotify => StepView::Done(None),
        RawEventView::ReparentNotify => StepView::Done(None),
        RawEventView::ConfigureNotify => StepView::Done(None),
        RawEventView::ConfigureRequest => StepView::Done(None),
        RawEventView::GravityNotify => StepView::Done(None),
        RawEventView::ResizeRequest => StepView::Done(None),
        RawEventView::CirculateNotify => StepView::Done(None),
        RawEventView::CirculateRequest => StepView::Done(None),
        RawEventView::SelectionClear => StepView::Done(None),
        RawEventView::SelectionRequest => StepView::Done(None),
        RawEventView::SelectionNotify => StepView::Done(None),
        RawEventView::ColormapNotify => StepView::Done(None),
        RawEventView::MappingNotify => StepView::Done(None),
        RawEventView::GenericEvent => StepView::Done(None),
        RawEventView::Unknown { .. } => StepView::Done(None),
    }
}

#[derive(Clone, Debug, PartialEq, Eq)]
enum Stage {
    Subscribe { window: u64 },
    Attrs { window: u64 },
    Name { window: u64 },
    Transient(Window),
    SizeHint(Window),
    Type(Window),
    Pointer { window: u64 },
    Keysym { state: ModMask, keycode: u32 },
    Property(PropertyQuery),
}

impl View for Stage {
    type V = StageView;

    closed spec fn view(&self) -> StageView {
        match self {
            Stage::Subscribe { window } => StageView::Subscribe { window: *window },
            Stage::Attrs { window } => StageView::Attrs { window: *window },
            Stage::Name { window } => StageView::Name { window: *window },
            Stage::Transient(w) => StageView::Transient(w@),
            Stage::SizeHint(w) => StageView::SizeHint(w@),
            Stage::Type(w) => StageView::Type(w@),
            Stage::Pointer { window } => StageView::Pointer { window: *window },
            Stage::Keysym { state, keycode } => StageView::Keysym {
                state: *state,
                keycode: *keycode,
            },
            Stage::Property(query) => StageView::Property(*query),
        }
    }
}

/// A translation that waits for a reply from the display server.
///
/// What it has gathered so far stays inside: a window is seen only once it
/// is complete, in the event that ends the translation.
#[derive(Clone, Debug, PartialEq, Eq)]
pub struct Pending {
    stage: Stage,
}

impl View for Pending {
    type V = StageView;

    closed spec fn view(&self) -> StageView {
        self.stage@
    }
}

/// How far a translation has come.
#[derive(Clone, Debug, PartialEq, Eq)]
pub enum Step {
    /// It has ended, in this event or in none.
    Done(Option<DisplayEvent>),
    /// It waits for the reply to [`Pending::request`].
    Pending(Pending),
}

impl View for Step {
    type V = StepView;

    open spec fn view(&self) -> StepView {
        match self {
            Step::Done(event) => StepView::Done(event_view(*event)),
            Step::Pending(pending) => StepView::Pending(pending@),
        }
    }
}

fn wait(stage: Stage) -> (step: Step)
    ensures
        step@ == StepView::Pending(stage@),
{
    Step::Pending(Pending { stage })
}

/// Begins the translation of one raw event.
///
/// The result is [`first_step`] of the event: for most kinds the outcome,
/// and for a new window, a pointer or focus entering, a key going down and a
/// property changing, the first question. `state` is only read.
pub fn begin(state: &AdapterState, raw: &RawEvent) -> (step: Step)
    ensures
        step@ == first_step(*state, raw@),
{
    match raw {
        RawEvent::MapRequest { window } => wait(Stage::Subscribe { window: *window }),
        RawEvent::DestroyNotify { window } => Step::Done(
            Some(DisplayEvent::WindowDestroy(WindowHandle::XlibHandle(*window))),
        ),
        RawEvent::ClientMessage(message) => Step::Done(
            client_message::from_event(&state.atoms, message),
        ),
        RawEvent::PropertyNotify(event) => match property_notify::from_event(&state.atoms, event) {
            Some(query) => wait(Stage::Property(query)),
            None => Step::Done(None),
        },
        RawEvent::ButtonPress { state: modifiers, button, window } => Step::Done(
            Some(DisplayEvent::MouseCombo(*modifiers, *button, WindowHandle::XlibHandle(*window))),
        ),
        RawEvent::ButtonRelease => Step::Done(Some(DisplayEvent::ChangeToNormalMode)),
        RawEvent::EnterNotify { window } => wait(Stage::Pointer { window: *window }),
        RawEvent::FocusIn { window } => wait(Stage::Pointer { window: *window }),
        RawEvent::KeyPress { state: modifiers, keycode } => wait(
            Stage::Keysym { state: *modifiers, keycode: *keycode },
        ),
        RawEvent::MotionNotify { window, x_root, y_root } => Step::Done(
            Some(state.mode.on_motion(state.mode_origin, *window, *x_root, *y_root)),
        ),
        RawEvent::UnmapNotify => Step::Done(None),
        RawEvent::CreateNotify => Step::Done(None),
        RawEvent::MapNotify => Step::Done(None),
        RawEvent::LeaveNotify => Step::Done(None),
        RawEvent::FocusOut => Step::Done(None),
        RawEvent::KeyRelease => Step::Done(None),
        RawEvent::KeymapNotify => Step::Done(None),
        RawEvent::Expose => Step::Done(None),
        RawEvent::GraphicsExpose => Step::Done(None),
        RawEvent::NoExpose => Step::Done(None),
        RawEvent::VisibilityNotify => Step::Done(None),
        RawEvent::ReparentNotify => Step::Done(None),
        RawEvent::ConfigureNotify => Step::Done(None),
        RawEvent::ConfigureRequest => Step::Done(None),
        RawEvent::GravityNotify => Step::Done(None),
        RawEvent::ResizeRequest => Step::Done(None),
        RawEvent::CirculateNotify => Step::Done(None),
        RawEvent::CirculateRequest => Step::Done(None),
        RawEvent::SelectionClear => Step::Done(None),
        RawEvent::SelectionRequest => Step::Done(None),
        RawEvent::SelectionNotify => Step::Done(None),
        RawEvent::ColormapNotify => Step::Done(None),
        RawEvent::MappingNotify => Step::Done(None),
        RawEvent::GenericEvent => Step::Done(None),
        RawEvent::Unknown { .. } => Step::Done(None),
    }
}

impl Pending {
    /// The question to put to the display server.
    pub fn request(&self) -> (request: Request)
        ensures
            request == self@.request(),
    {
        match &self.stage {
            Stage::Subscribe { window } => Request::SubscribeToWindowEvents(
                WindowHandle::XlibHandle(*window),
            ),
            Stage::Attrs { window } => Request::GetWindowAttrs(*window),
            Stage::Name { window } => Request::GetWindowName(*window),
            Stage::Transient(w) => Request::GetTransientFor(w.handle.xlib_id()),
            Stage::SizeHint(w) => Request::GetHintSizingAsTuple(w.handle.xlib_id()),
            Stage::Type(w) => Request::GetWindowType(w.handle.xlib_id()),
            Stage::Pointer { .. } => Request::GetPointerLocation,
            Stage::Keysym { keycode, .. } => Request::KeycodeToKeysym(*keycode),
            Stage::Property(query) => query.request(),
        }
    }

    /// Takes the translation one step further with the reply to
    /// [`Pending::request`].
    ///
    /// The result is [`StageView::resumed`] of the stage and the reply: the
    /// outcome, or the translation waiting for the next reply.
    pub fn resume(self, reply: Reply) -> (step: Step)
        ensures
            step@ == self@.resumed(reply@),
    {
        match self.stage {
            Stage::Subscribe { window } => match reply {
                Reply::Subscribed => wait(Stage::Attrs { window }),
                _ => Step::Done(None),
            },
            Stage::Attrs { window } => match reply {
                Reply::WindowAttrs(Ok(attrs)) => {
                    if attrs.overrides_redirect() {
                        Step::Done(None)
                    } else {
                        wait(Stage::Name { window })
                    }
                },
                _ => Step::Done(None),
            },
            Stage::Name { window } => match reply {
                Reply::WindowName(name) => wait(
                    Stage::Transient(Window::new(WindowHandle::XlibHandle(window), name)),
                ),
                _ => Step::Done(None),
            },
            Stage::Transient(w) => match reply {
                Reply::TransientFor(parent) => {
                    let mut w = w;
                    if let Some(id) = parent {
                        w.transient = Some(WindowHandle::XlibHandle(id));
                    }
                    wait(Stage::SizeHint(w))
                },
                _ => Step::Done(None),
            },
            Stage::SizeHint(w) => match reply {
                Reply::HintSizing(size) => {
                    let mut w = w;
                    w.floating_size = size;
                    wait(Stage::Type(w))
                },
                _ => Step::Done(None),
            },
            Stage::Type(w) => match reply {
                Reply::WindowType(type_) => {
                    let mut w = w;
                    w.type_ = type_;
                    Step::Done(Some(DisplayEvent::WindowCreate(w)))
                },
                _ => Step::Done(None),
            },
            Stage::Pointer { window } => match reply {
                Reply::PointerLocation(Some(at)) => Step::Done(
                    Some(DisplayEvent::FocusedWindow(WindowHandle::XlibHandle(window), at.0, at.1)),
                ),
                _ => Step::Done(None),
            },
            Stage::Keysym { state, .. } => match reply {
                Reply::Keysym(sym) => Step::Done(Some(DisplayEvent::KeyCombo(state, sym))),
                _ => Step::Done(None),
            },
            Stage::Property(query) => Step::Done(query.resume(reply)),
        }
    }
}

impl StageView {
    /// How many questions a translation at this stage has yet to ask, the
    /// one it waits on included, if none of the replies ends it early.
    pub open spec fn questions_left(self) -> nat {
        match self {
            StageView::Subscribe { .. } => 6,
            StageView::Attrs { .. } => 5,
            StageView::Name { .. } => 4,
            StageView::Transient(_) => 3,
            StageView::SizeHint(_) => 2,
            StageView::Type(_) => 1,
            StageView::Pointer { .. } => 1,
            StageView::Keysym { .. } => 1,
            StageView::Property(_) => 1,
        }
    }
}

impl StepView {
    /// How many questions the translation has yet to ask at most.
    pub open spec fn questions_left(self) -> nat {
        match self {
            StepView::Done(_) => 0,
            StepView::Pending(stage) => stage.questions_left(),
        }
    }
}

/// The replies that `ask` may give: whether `reply` is one that it may give
/// to `request`.
pub open spec fn replies_of<F: Fn(Request) -> Reply>(ask: F) -> spec_fn(Request, Reply) -> bool {
    |request: Request, reply: Reply| call_ensures(ask, (request,), reply)
}

/// Whether a translation that stands at `step` can end in `event` within
/// `questions` questions, where `replies` says which reply may be given to
/// which question.
pub open spec fn can_end_in(
    step: StepView,
    replies: spec_fn(Request, Reply) -> bool,
    event: Option<DisplayEventView>,
    questions: nat,
) -> bool
    decreases questions,
{
    match step {
        StepView::Done(e) => e == event,
        StepView::Pending(stage) => questions > 0 && exists|reply: Reply| #[trigger]
            replies(stage.request(), reply) && can_end_in(
                stage.resumed(reply@),
                replies,
                event,
                (questions - 1) as nat,
            ),
    }
}

/// Whether every reply that may be given is the one that `connection`
/// answers.
pub open spec fn answers_as(
    replies: spec_fn(Request, Reply) -> bool,
    connection: Connection,
) -> bool {
    forall|request: Request, reply: Reply| #[trigger]
        replies(request, reply) ==> reply@ == connection.answer(request)
}

/// The most questions that one translation puts to the display server: the
/// six that a new window takes.
pub const MAX_QUESTIONS: usize = 6;

/// The step that a translation stands at after the display server, which
/// answers as `connection` does, has replied to its questions, to at most
/// `questions` of them.
pub open spec fn run(step: StepView, connection: Connection, questions: nat) -> StepView
    decreases questions,
{
    match step {
        StepView::Done(_) => step,
        StepView::Pending(stage) => if questions == 0 {
            step
        } else {
            run(
                stage.resumed(connection.answer(stage.request())),
                connection,
                (questions - 1) as nat,
            )
        },
    }
}

/// The window with the given id, made up of what the display server
/// answers about it.
pub open spec fn new_window(window: u64, connection: Connection) -> WindowView {
    WindowView::new(
        WindowHandle::XlibHandle(window),
        (connection.window_name)(window),
    ).with_transient((connection.transient_for)(window)).with_floating_size(
        (connection.hint_sizing)(window),
    ).with_type((connection.window_type)(window))
}

/// The pointer or the focus entered the window with the given id: the event
/// says so, with the pointer's position, where the display server tells the
/// position, and there is no event where it does not.
pub open spec fn focused(window: u64, connection: Connection) -> Option<DisplayEventView> {
    match connection.pointer_location {
        Some(at) => Some(
            DisplayEventView::FocusedWindow(WindowHandle::XlibHandle(window), at.0, at.1),
        ),
        None => None,
    }
}

/// What the translation of `raw` comes to while the connection's state is
/// `state` and the display server answers as `connection` does. This is the
/// table of the translator, one line for each kind of event that has a
/// translation.
pub open spec fn outcome(state: AdapterState, raw: RawEventView, connection: Connection) -> Option<
    DisplayEventView,
> {
    match raw {
        RawEventView::MapRequest { window } => match (connection.window_attrs)(window) {
            Ok(attrs) => if attrs.is_override_redirect() {
                None
            } else {
                Some(DisplayEventView::WindowCreate(new_window(window, connection)))
            },
            Err(_) => None,
        },
        RawEventView::DestroyNotify { window } => Some(
            DisplayEventView::WindowDestroy(WindowHandle::XlibHandle(window)),
        ),
        RawEventView::ClientMessage(message) => client_message::translated(state.atoms, message),
        RawEventView::PropertyNotify(event) => property_notify::translated(
            state.atoms,
            event,
            connection,
        ),
        RawEventView::ButtonPress { state: modifiers, button, window } => Some(
            DisplayEventView::MouseCombo(modifiers, button, WindowHandle::XlibHandle(window)),
        ),
        RawEventView::ButtonRelease => Some(DisplayEventView::ChangeToNormalMode),
        RawEventView::EnterNotify { window } => focused(window, connection),
        RawEventView::FocusIn { window } => focused(window, connection),
        RawEventView::KeyPress { state: modifiers, keycode } => Some(
            DisplayEventView::KeyCombo(modifiers, (connection.keysym)(keycode)),
        ),
        RawEventView::MotionNotify { window, x_root, y_root } => Some(
            motion_event(state.mode, state.mode_origin, window, x_root, y_root),
        ),
        _ => None,
    }
}

/// Every translation ends, after at most [`MAX_QUESTIONS`] questions, and
/// what it ends in is [`outcome`].
pub proof fn lemma_translation_ends(state: AdapterState, raw: RawEventView, connection: Connection)
    ensures
        run(first_step(state, raw), connection, MAX_QUESTIONS as nat) == StepView::Done(
            outcome(state, raw, connection),
        ),
{
    reveal_with_fuel(run, 7);
}

/// Each reply takes a translation closer to its end.
pub proof fn lemma_resume_makes_progress(stage: StageView, reply: ReplyView)
    ensures
        stage.resumed(reply).questions_left() < stage.questions_left(),
{
}

/// What can be reached within some number of questions can be reached
/// within more.
proof fn lemma_more_questions(
    step: StepView,
    replies: spec_fn(Request, Reply) -> bool,
    event: Option<DisplayEventView>,
    questions: nat,
    more: nat,
)
    requires
        can_end_in(step, replies, event, questions),
        questions <= more,
    ensures
        can_end_in(step, replies, event, more),
    decreases questions,
{
    if let StepView::Pending(stage) = step {
        let reply = choose|reply: Reply| #[trigger]
            replies(stage.request(), reply) && can_end_in(
                stage.resumed(reply@),
                replies,
                event,
                (questions - 1) as nat,
            );
        lemma_more_questions(
            stage.resumed(reply@),
            replies,
            event,
            (questions - 1) as nat,
            (more - 1) as nat,
        );
    }
}

/// Where every reply is the one that `connection` answers, a translation can end only
/// in what it comes to with the answers of `connection`.
proof fn lemma_known_answers(
    step: StepView,
    replies: spec_fn(Request, Reply) -> bool,
    connection: Connection,
    event: Option<DisplayEventView>,
    questions: nat,
)
    requires
        answers_as(replies, connection),
        can_end_in(step, replies, event, questions),
    ensures
        run(step, connection, questions) == StepView::Done(event),
    decreases questions,
{
    if let StepView::Pending(stage) = step {
        let reply = choose|reply: Reply| #[trigger]
            replies(stage.request(), reply) && can_end_in(
                stage.resumed(reply@),
                replies,
                event,
                (questions - 1) as nat,
            );
        lemma_known_answers(
            stage.resumed(reply@),
            replies,
            connection,
            event,
            (questions - 1) as nat,
        );
    }
}

/// Translates one raw event, putting to `ask` each question that comes up.
///
/// The translation ends after at most [`MAX_QUESTIONS`] questions. The
/// result is one that the steps of the translation lead to with replies
/// that `ask` gave. Where `ask` is known to reply as some connection
/// answers, the result is the [`outcome`] for that connection. `state` is
/// only read.
pub fn translate<F: Fn(Request) -> Reply>(state: &AdapterState, raw: &RawEvent, ask: F) -> (event:
    Option<DisplayEvent>)
    requires
        forall|request: Request| call_requires(ask, (request,)),
    ensures
        can_end_in(
            first_step(*state, raw@),
            replies_of(ask),
            event_view(event),
            MAX_QUESTIONS as nat,
        ),
        forall|connection: Connection|
            answers_as(replies_of(ask), connection) ==> event_view(event) == outcome(
                *state,
                raw@,
                connection,
            ),
{
    let mut step = begin(state, raw);
    let ghost first = step@;
    let ghost replies = replies_of(ask);
    let ghost mut asked: nat = 0;
    loop
        invariant
            forall|request: Request| call_requires(ask, (request,)),
            first == first_step(*state, raw@),
            asked + step@.questions_left() <= MAX_QUESTIONS,
            replies == replies_of(ask),
            forall|e: Option<DisplayEventView>, n: nat| #[trigger]
                can_end_in(step@, replies, e, n) ==> can_end_in(first, replies, e, n + asked),
        decreases step@.questions_left(),
    {
        match step {
            Step::Done(event) => {
                proof {
                    let end = event_view(event);
                    assert(can_end_in(StepView::Done(end), replies, end, 0));
                    lemma_more_questions(first, replies, end, asked, MAX_QUESTIONS as nat);
                    assert forall|connection: Connection|
                        answers_as(replies, connection) implies end == outcome(
                        *state,
                        raw@,
                        connection,
                    ) by {
                        lemma_known_answers(first, replies, connection, end, MAX_QUESTIONS as nat);
                        lemma_translation_ends(*state, raw@, connection);
                    }
                }
                return event;
            },
            Step::Pending(pending) => {
                let ghost stage = pending@;
                let request = pending.request();
                let reply = ask(request);
                let ghost given = reply;
                step = pending.resume(reply);
                proof {
                    lemma_resume_makes_progress(stage, given@);
                    assert forall|e: Option<DisplayEventView>, n: nat| #[trigger]
                        can_end_in(step@, replies, e, n) implies can_end_in(
                        first,
                        replies,
                        e,
                        n + asked + 1,
                    ) by {
                        assert(replies(stage.request(), given));
                        assert(can_end_in(stage.resumed(given@), replies, e, n));
                        assert(can_end_in(StepView::Pending(stage), replies, e, n + 1));
                    }
                    asked = asked + 1;
                }
            },
        }
    }
}

} // verus!
