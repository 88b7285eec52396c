//! The upload handler: multipart parts are decoded and collected first, then
//! stored one by one in the order received. The decisions are a state
//! machine; whoever drives it reads the parts and performs the writes.

use crate::storage::{ObjectView, StorageObject};
use vstd::prelude::*;

verus! {

/// Why a part could not be decoded.
#[derive(Clone, Copy, Debug, PartialEq, Eq, Structural)]
pub enum DecodeError {
    /// The multipart stream was malformed or could not be read.
    Malformed,
    /// A part carried no file name, or an empty one.
    MissingFileName,
}

/// Why an upload request failed.
#[derive(Clone, Copy, Debug, PartialEq, Eq, Structural)]
pub enum UploadError {
    Decode(DecodeError),
    /// The store rejected a write.
    Store,
}

#[derive(Clone, Copy, Debug, PartialEq, Eq, Structural)]
pub enum UploadPhase {
    /// Reading parts from the request.
    Decoding,
    /// Writing the collected objects, one at a time.
    Storing,
    /// Every object was written.
    Complete,
    Failed(UploadError),
}

/// What the driver observed after performing the last action.
pub enum UploadEvent {
    /// A part was read in full.
    Part { file_name: Option<String>, data: Vec<u8> },
    /// Reading the next part failed.
    DecodeFailed,
    /// The request holds no further part.
    PartsEnd,
    /// The last write succeeded.
    Stored,
    /// The last write failed.
    StoreFailed,
}

pub enum EventView {
    Part(Option<Seq<char>>, Seq<u8>),
    DecodeFailed,
    PartsEnd,
    Stored,
    StoreFailed,
}

impl View for UploadEvent {
    type V = EventView;

    open spec fn view(&self) -> EventView {
        match self {
            UploadEvent::Part { file_name, data } => EventView::Part(
                match file_name {
                    Some(n) => Some(n@),
                    None => None,
                },
                data@,
            ),
            UploadEvent::DecodeFailed => EventView::DecodeFailed,
            UploadEvent::PartsEnd => EventView::PartsEnd,
            UploadEvent::Stored => EventView::Stored,
            UploadEvent::StoreFailed => EventView::StoreFailed,
        }
    }
}

/// What the driver must do next.
pub enum UploadAction {
    /// Read the next part of the request.
    ReadPart,
    /// Write this object to the store.
    Store(StorageObject),
    /// Answer the request: success, or the reason for failure.
    Respond(Result<(), UploadError>),
}

pub enum ActionView {
    ReadPart,
    Store(ObjectView),
    Respond(Result<(), UploadError>),
}

impl View for UploadAction {
    type V = ActionView;

    open spec fn view(&self) -> ActionView {
        match self {
            UploadAction::ReadPart => ActionView::ReadPart,
            UploadAction::Store(o) => ActionView::Store(o@),
            UploadAction::Respond(r) => ActionView::Respond(*r),
        }
    }
}

/// The state of one request: its phase, the objects decoded so far, and how
/// many of them the store has confirmed.
pub struct SessionView {
    pub phase: UploadPhase,
    pub objects: Seq<ObjectView>,
    pub stored: nat,
}

/// A part's file name can serve as a key: present and non-empty.
pub open spec fn usable_name(name: Option<Seq<char>>) -> bool {
    name is Some && name->0.len() > 0
}

pub open spec fn initial() -> SessionView {
    SessionView { phase: UploadPhase::Decoding, objects: seq![], stored: 0 }
}

/// Which events a phase waits for; a finished request waits for none.
pub open spec fn accepts(phase: UploadPhase, e: EventView) -> bool {
    match phase {
        UploadPhase::Decoding => e is Part || e is DecodeFailed || e is PartsEnd,
        UploadPhase::Storing => e is Stored || e is StoreFailed,
        _ => false,
    }
}

/// The transition on an event that the phase accepts.
pub open spec fn step(s: SessionView, e: EventView) -> SessionView {
    match e {
        EventView::Part(name, data) => if usable_name(name) {
            SessionView { objects: s.objects.push(ObjectView { key: name->0, data }), ..s }
        } else {
            SessionView { phase: UploadPhase::Failed(UploadError::Decode(DecodeError::MissingFileName)), ..s }
        },
        EventView::DecodeFailed => SessionView {
            phase: UploadPhase::Failed(UploadError::Decode(DecodeError::Malformed)),
            ..s
        },
        EventView::PartsEnd => if s.objects.len() == 0 {
            SessionView { phase: UploadPhase::Complete, ..s }
        } else {
            SessionView { phase: UploadPhase::Storing, ..s }
        },
        EventView::Stored => if s.stored + 1 == s.objects.len() {
            SessionView { phase: UploadPhase::Complete, stored: s.stored + 1, ..s }
        } else {
            SessionView { stored: s.stored + 1, ..s }
        },
        EventView::StoreFailed => SessionView { phase: UploadPhase::Failed(UploadError::Store), ..s },
    }
}

/// The action a state asks for: while storing, the write of the first
/// object not yet confirmed.
pub open spec fn action_of(s: SessionView) -> ActionView {
    match s.phase {
        UploadPhase::Decoding => ActionView::ReadPart,
        UploadPhase::Storing => ActionView::Store(s.objects[s.stored as int]),
        UploadPhase::Complete => ActionView::Respond(Ok(())),
        UploadPhase::Failed(e) => ActionView::Respond(Err(e)),
    }
}

/// The states that runs from the initial state keep to.
pub open spec fn consistent(s: SessionView) -> bool {
    match s.phase {
        UploadPhase::Decoding => s.stored == 0,
        UploadPhase::Storing => s.stored < s.objects.len(),
        UploadPhase::Complete => s.stored == s.objects.len(),
        UploadPhase::Failed(UploadError::Store) => s.stored < s.objects.len(),
        UploadPhase::Failed(UploadError::Decode(_)) => s.stored == 0,
    }
}

/// The handler for one upload request.
pub struct UploadSession {
    phase: UploadPhase,
    /// The objects decoded so far, in order, while decoding.
    collected: Vec<StorageObject>,
    /// While storing, the objects not yet handed out, last one first.
    pending: Vec<StorageObject>,
    objects: Ghost<Seq<ObjectView>>,
    stored: Ghost<nat>,
}

impl View for UploadSession {
    type V = SessionView;

    closed spec fn view(&self) -> SessionView {
        SessionView { phase: self.phase, objects: self.objects@, stored: self.stored@ }
    }
}

impl UploadSession {
    pub closed spec fn wf(&self) -> bool {
        &&& consistent(self@)
        &&& self.phase is Decoding ==> {
            &&& self.pending@.len() == 0
            &&& self.collected@.len() == self.objects@.len()
            &&& forall|i: int|
                0 <= i < self.objects@.len() ==> (#[trigger] self.collected@[i])@
                    == self.objects@[i]
        }
        &&& self.phase is Storing ==> {
            &&& self.pending@.len() + self.stored@ + 1 == self.objects@.len()
            &&& forall|i: int|
                0 <= i < self.pending@.len() ==> (#[trigger] self.pending@[i])@
                    == self.objects@[self.objects@.len() - 1 - i]
        }
    }

    /// A handler for a new request; its first action is to read a part.
    pub fn new() -> (r: UploadSession)
        ensures
            r.wf(),
            r@ == initial(),
            action_of(r@) == ActionView::ReadPart,
    {
        UploadSession {
            phase: UploadPhase::Decoding,
            collected: Vec::new(),
            pending: Vec::new(),
            objects: Ghost(Seq::empty()),
            stored: Ghost(0),
        }
    }

    pub fn phase(&self) -> (r: UploadPhase)
        ensures
            r == self@.phase,
    {
        self.phase
    }

    /// Whether the current phase waits for `event`.
    pub fn accepts(&self, event: &UploadEvent) -> (r: bool)
        ensures
            r == accepts(self@.phase, event@),
    {
        match self.phase {
            UploadPhase::Decoding => match event {
                UploadEvent::Part { .. } => true,
                UploadEvent::DecodeFailed => true,
                UploadEvent::PartsEnd => true,
                _ => false,
            },
            UploadPhase::Storing => match event {
                UploadEvent::Stored => true,
                UploadEvent::StoreFailed => true,
                _ => false,
            },
            _ => false,
        }
    }

    /// Takes the next object to write off the pending list.
    fn next_store(&mut self) -> (r: UploadAction)
        requires
            consistent(old(self)@),
            old(self).phase is Storing,
            old(self).pending@.len() + old(self).stored@ == old(self).objects@.len(),
            forall|i: int|
                0 <= i < old(self).pending@.len() ==> (#[trigger] old(self).pending@[i])@
                    == old(self).objects@[old(self).objects@.len() - 1 - i],
        ensures
            final(self).wf(),
            final(self)@ == old(self)@,
            r@ == action_of(final(self)@),
    {
        let o = self.pending.pop().unwrap();
        UploadAction::Store(o)
    }

    /// Moves to the next state on `event` and returns the action it asks for.
    pub fn step(&mut self, event: UploadEvent) -> (r: UploadAction)
        requires
            old(self).wf(),
            accepts(old(self)@.phase, event@),
        ensures
            final(self).wf(),
            final(self)@ == step(old(self)@, event@),
            r@ == action_of(final(self)@),
    {
        match event {
            UploadEvent::Part { file_name, data } => {
                let usable = match &file_name {
                    Some(k) => k.as_str().unicode_len() > 0,
                    None => false,
                };
                if usable {
                    let key = file_name.unwrap();
                    let ghost obj = ObjectView { key: key@, data: data@ };
                    self.collected.push(StorageObject { key, data });
                    self.objects = Ghost(self.objects@.push(obj));
                    UploadAction::ReadPart
                } else {
                    let e = UploadError::Decode(DecodeError::MissingFileName);
                    self.phase = UploadPhase::Failed(e);
                    UploadAction::Respond(Err(e))
                }
            },
            UploadEvent::DecodeFailed => {
                let e = UploadError::Decode(DecodeError::Malformed);
                self.phase = UploadPhase::Failed(e);
                UploadAction::Respond(Err(e))
            },
            UploadEvent::PartsEnd => {
                if self.collected.len() == 0 {
                    self.phase = UploadPhase::Complete;
                    return UploadAction::Respond(Ok(()));
                }
                let n = self.collected.len();
                while self.collected.len() > 0
                    invariant
                        self.collected@.len() + self.pending@.len() == n,
                        n == self.objects@.len(),
                        self.stored@ == 0,
                        self.objects@ == old(self).objects@,
                        forall|i: int|
                            0 <= i < self.collected@.len() ==> (#[trigger] self.collected@[i])@
                                == self.objects@[i],
                        forall|i: int|
                            0 <= i < self.pending@.len() ==> (#[trigger] self.pending@[i])@
                                == self.objects@[n - 1 - i],
                    decreases self.collected@.len(),
                {
                    let o = self.collected.pop().unwrap();
                    self.pending.push(o);
                }
                self.phase = UploadPhase::Storing;
                self.next_store()
            },
            UploadEvent::Stored => {
                self.stored = Ghost(self.stored@ + 1);
                if self.pending.len() == 0 {
                    self.phase = UploadPhase::Complete;
                    UploadAction::Respond(Ok(()))
                } else {
                    self.next_store()
                }
            },
            UploadEvent::StoreFailed => {
                self.phase = UploadPhase::Failed(UploadError::Store);
                UploadAction::Respond(Err(UploadError::Store))
            },
        }
    }
}

} // verus!
