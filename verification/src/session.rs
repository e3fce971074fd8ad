//! The scoped-resource bridge: a single-occupancy resource slot, the
//! begin/end session state machine on top of it, and the dispatcher that
//! forwards drawing commands only while a session is open.
//!
//! The rendering library's drawing context is valid only inside one logical
//! frame.  The host glue erases that lifetime (a boxed handle behind a raw
//! pointer, parked in thread-scoped storage) so that independently dispatched
//! script calls can reach it; what this module guarantees is the protocol
//! that makes the erasure sound: the slot holds at most one handle, a second
//! `begin` is refused rather than overwriting (which would leak a frame and
//! later double-release it), `end` always empties the slot and hands the
//! occupant back for release exactly once, and a command dispatched with the
//! slot empty is dropped silently rather than reaching a dangling handle.
//!
//! The slot type is generic in the handle: the host instantiates it with its
//! erased pointer, the tests with any plain value.

use vstd::prelude::*;
use crate::geometry::{LuaColor, LuaRectangle, LuaVector2, Scalar};

verus! {

/// A violation of the session protocol.
#[derive(Clone, Copy, Debug, PartialEq, Eq, Structural)]
pub enum ProtocolError {
    /// A session was opened while another was still open.
    SessionAlreadyOpen,
}

/// The single-occupancy register for the current session's erased handle.
///
/// Its abstract value is the occupant: `None` while no session is open.
pub struct ResourceSlot<T> {
    cell: Option<T>,
}

impl<T> View for ResourceSlot<T> {
    type V = Option<T>;

    closed spec fn view(&self) -> Option<T> {
        self.cell
    }
}

impl<T> ResourceSlot<T> {
    /// An empty slot.
    pub fn new() -> (r: ResourceSlot<T>)
        ensures
            r@ is None,
    {
        ResourceSlot { cell: None }
    }

    /// Parks a handle in the slot.
    ///
    /// Overlapping sessions cannot be represented, so the slot must be empty;
    /// the session controller checks before calling.
    pub fn put(&mut self, handle: T)
        requires
            old(self)@ is None,
        ensures
            final(self)@ == Some(handle),
    {
        self.cell = Some(handle);
    }

    /// Empties the slot, handing the occupant — if any — back to the caller.
    pub fn take(&mut self) -> (r: Option<T>)
        ensures
            final(self)@ is None,
            r == old(self)@,
    {
        self.cell.take()
    }

    /// Whether the slot holds a handle.
    pub fn is_occupied(&self) -> (b: bool)
        ensures
            b == (self@ is Some),
    {
        self.cell.is_some()
    }
}

impl<T: Copy> ResourceSlot<T> {
    /// Reads the occupant without removing it.
    pub fn peek(&self) -> (r: Option<T>)
        ensures
            r == self@,
    {
        self.cell
    }
}

/// Whether `begin` accepts from this slot state: only an empty slot can open
/// a session.
pub open spec fn spec_begin_ok<T>(s: Option<T>) -> bool {
    s is None
}

/// The slot after `begin`: occupied by the new handle when it was empty,
/// untouched — never overwritten — when a session was already open.
pub open spec fn spec_after_begin<T>(s: Option<T>, handle: T) -> Option<T> {
    if s is None {
        Some(handle)
    } else {
        s
    }
}

/// The effect of `end` on a slot state: the slot after (always empty) and
/// the handle released to the caller (the occupant, if any).
pub open spec fn spec_end_transition<T>(s: Option<T>) -> (Option<T>, Option<T>) {
    (None, s)
}

/// The session controller: the begin/end state machine over a
/// [`ResourceSlot`].
///
/// Its abstract value is the slot's: `Some(handle)` exactly while a session
/// is open.
pub struct SessionController<T> {
    slot: ResourceSlot<T>,
}

impl<T> View for SessionController<T> {
    type V = Option<T>;

    closed spec fn view(&self) -> Option<T> {
        self.slot@
    }
}

/// The controller with a session open on the given handle — the value the
/// callback of [`SessionController::run_scoped`] is handed.
pub closed spec fn spec_with_open<T>(handle: T) -> SessionController<T> {
    SessionController { slot: ResourceSlot { cell: Some(handle) } }
}

/// What the callback sees: the controller of [`spec_with_open`] has a
/// session open on exactly the given handle.
pub broadcast proof fn lemma_with_open_view<T>(handle: T)
    ensures
        #[trigger] spec_with_open(handle)@ == Some(handle),
{
}

impl<T> SessionController<T> {
    /// A controller with no session open.
    pub fn new() -> (r: SessionController<T>)
        ensures
            r@ is None,
    {
        SessionController { slot: ResourceSlot::new() }
    }

    /// Whether a session is open.
    pub fn is_open(&self) -> (b: bool)
        ensures
            b == (self@ is Some),
    {
        self.slot.is_occupied()
    }

    /// Opens a session on the given handle.
    ///
    /// Valid only while closed; opening over a live session is a protocol
    /// error, reported — never silently nested — and the refused handle comes
    /// back with the error so the caller can still release it.
    pub fn begin(&mut self, handle: T) -> (r: Result<(), (ProtocolError, T)>)
        ensures
            final(self)@ == spec_after_begin(old(self)@, handle),
            r is Ok <==> spec_begin_ok(old(self)@),
            r matches Err((e, h)) ==> e == ProtocolError::SessionAlreadyOpen && h == handle,
    {
        if self.slot.is_occupied() {
            Err((ProtocolError::SessionAlreadyOpen, handle))
        } else {
            self.slot.put(handle);
            Ok(())
        }
    }

    /// Closes the session, handing the handle back for release; dropping the
    /// handle is what finalises the rendering library's frame.
    ///
    /// Closing with no session open is a no-op that releases nothing.
    pub fn end(&mut self) -> (r: Option<T>)
        ensures
            (final(self)@, r) == spec_end_transition(old(self)@),
    {
        self.slot.take()
    }

    /// Runs one whole session around the callback: opens on the handle, runs
    /// the callback with read access to the open controller, and closes
    /// again — on every path, whether or not the callback failed.
    ///
    /// On success the handle comes back, to be released exactly once,
    /// together with the callback's own result.  If a session was already
    /// open, nothing runs: the error carries the refused handle and the open
    /// session stands untouched.
    pub fn run_scoped<E, F: FnOnce(&SessionController<T>) -> Result<(), E>>(
        &mut self,
        handle: T,
        f: F,
    ) -> (r: Result<(T, Result<(), E>), (ProtocolError, T)>)
        requires
            call_requires(f, (&spec_with_open(handle),)),
        ensures
            old(self)@ is None ==> final(self)@ is None,
            old(self)@ is Some ==> *final(self) == *old(self),
            r is Ok <==> old(self)@ is None,
            r matches Ok((h, fr)) ==> h == handle && call_ensures(
                f,
                (&spec_with_open(handle),),
                fr,
            ),
            r matches Err((e, h)) ==> e == ProtocolError::SessionAlreadyOpen && h == handle,
    {
        if self.slot.is_occupied() {
            return Err((ProtocolError::SessionAlreadyOpen, handle));
        }
        let ghost parked: T = handle;
        self.slot.put(handle);
        assert(*self == spec_with_open(parked));
        let fr = f(&*self);
        let released = self.end();
        match released {
            Some(h) => Ok((h, fr)),
            None => vstd::pervasive::unreached(),
        }
    }
}

/// One drawing or query operation, with its geometry and colour arguments
/// already marshalled.  The dispatcher forwards a command to the rendering
/// library only while a session is open; the command itself carries no state.
#[derive(Clone, Debug, PartialEq)]
pub enum DrawCommand {
    ClearBackground { color: LuaColor },
    Text { text: String, x: i32, y: i32, size: i32, color: LuaColor },
    Rectangle { x: i32, y: i32, width: i32, height: i32, color: LuaColor },
    RectangleRec { rect: LuaRectangle, color: LuaColor },
    Circle { x: i32, y: i32, radius: Scalar, color: LuaColor },
    CircleV { center: LuaVector2, radius: Scalar, color: LuaColor },
    Line { x1: i32, y1: i32, x2: i32, y2: i32, color: LuaColor },
    Pixel { x: i32, y: i32, color: LuaColor },
    Ring {
        center: LuaVector2,
        inner_radius: Scalar,
        outer_radius: Scalar,
        start_angle: Scalar,
        end_angle: Scalar,
        segments: i32,
        color: LuaColor,
    },
    RectangleLines { x: i32, y: i32, width: i32, height: i32, color: LuaColor },
    CircleLines { x: i32, y: i32, radius: Scalar, color: LuaColor },
}

impl<T: Copy> SessionController<T> {
    /// Reads the open session's handle without touching it.
    pub fn current(&self) -> (r: Option<T>)
        ensures
            r == self@,
    {
        self.slot.peek()
    }

    /// Routes one drawing command under the no-session policy: with a
    /// session open the command is forwarded, paired with the handle to
    /// issue it on; with the slot empty it is dropped — a silent no-op, by
    /// design, so nothing is ever issued on a dangling handle.
    ///
    /// Dispatching reads the controller and cannot change its state.
    pub fn dispatch(&self, cmd: DrawCommand) -> (r: Option<(T, DrawCommand)>)
        ensures
            self@ matches Some(h) ==> r == Some((h, cmd)),
            self@ is None ==> r is None,
    {
        match self.slot.peek() {
            Some(h) => Some((h, cmd)),
            None => None,
        }
    }

    /// Routes a batch of drawing commands: with a session open every command
    /// is forwarded, in exactly the order issued; with the slot empty none
    /// is.
    pub fn dispatch_all(&self, cmds: Vec<DrawCommand>) -> (r: Vec<(T, DrawCommand)>)
        ensures
            self@ is None ==> r@.len() == 0,
            self@ matches Some(h) ==> r@.len() == cmds@.len() && (forall|i: int|
                0 <= i < cmds@.len() ==> r@[i] == (h, cmds@[i])),
    {
        let mut out: Vec<(T, DrawCommand)> = Vec::new();
        let mut rest = cmds;
        let ghost all = rest@;
        let total: usize = rest.len();
        let mut taken: usize = 0;
        while rest.len() > 0
            invariant
                total == all.len(),
                taken + rest@.len() == all.len(),
                rest@ =~= all.skip(taken as int),
                self@ is None ==> out@.len() == 0,
                self@ matches Some(h) ==> out@.len() == taken && (forall|i: int|
                    0 <= i < taken ==> out@[i] == (h, all[i])),
            decreases rest@.len(),
        {
            let cmd = rest.remove(0);
            assert(cmd == all[taken as int]);
            match self.dispatch(cmd) {
                Some(p) => out.push(p),
                None => {},
            }
            assert(rest@ =~= all.skip(taken as int + 1));
            taken += 1;
        }
        out
    }
}

/// Law: a well-formed session leaves the slot as it found it — empty.  From
/// the empty slot, `begin` accepts and parks exactly the session's handle;
/// `end` then empties the slot and releases exactly that handle.
pub proof fn lemma_session_lifecycle<T>(handle: T)
    ensures
        spec_begin_ok(Option::<T>::None),
        spec_after_begin(Option::<T>::None, handle) == Some(handle),
        spec_end_transition(spec_after_begin(Option::<T>::None, handle)) == (
            Option::<T>::None,
            Some(handle),
        ),
{
}

/// Law: a second `begin` without an intervening `end` is refused and the
/// slot is not overwritten — the live session's handle stays exactly where
/// it was.
pub proof fn lemma_begin_rejects_overlap<T>(s: Option<T>, handle: T)
    requires
        s is Some,
    ensures
        !spec_begin_ok(s),
        spec_after_begin(s, handle) == s,
{
}

/// Law: closing is idempotent — after one `end` the slot is empty, and a
/// second `end` finds nothing and releases nothing, so a handle is never
/// released twice.
pub proof fn lemma_end_idempotent<T>(s: Option<T>)
    ensures
        spec_end_transition(s).0 is None,
        spec_end_transition(spec_end_transition(s).0) == (Option::<T>::None, Option::<T>::None),
{
}

} // verus!
