//! Reading the geoarrow type of an Arrow C Data Interface schema: the checks
//! on the raw schema tree, driven by whoever can read it.
//!
//! The tree sits behind raw pointers that only the caller can follow, so the
//! checks run as a walk: the walk asks for one read at a time (a struct, a
//! string, an entry of a children array) and takes the answer back. It asks
//! for exactly the reads that a recursive check of the tree makes, in the
//! same order, and never for a string or child of a struct that an earlier
//! check rejected.
use vstd::prelude::*;
use vstd::utf8::valid_utf8;

use crate::error::SchemaError;

verus! {

/// A schema tree deeper than this is rejected rather than walked, so a
/// cyclic children graph cannot hang or overflow the stack.
pub const MAX_DEPTH: usize = 64;

/// What the walk reads from one `ArrowSchema` struct.
#[derive(Clone, Copy, Debug, PartialEq, Eq, Structural)]
pub struct SchemaHeader {
    /// The release callback is present.
    pub has_release: bool,
    /// The format string pointer is non-null.
    pub has_format: bool,
    /// The name string pointer is non-null.
    pub has_name: bool,
    pub n_children: i64,
    /// The children array pointer is non-null.
    pub has_children: bool,
    /// The dictionary schema, if its pointer is non-null, by the handle the reader gave it.
    pub dictionary: Option<usize>,
}

/// A read that the walk asks for. Schemas are named by handles that the
/// reader chooses.
#[derive(Clone, Copy, Debug, PartialEq, Eq, Structural)]
pub enum SchemaRead {
    /// The struct of a schema.
    Header(usize),
    /// The bytes of a schema's format string, up to its NUL.
    Format(usize),
    /// The bytes of a schema's name string, up to its NUL.
    Name(usize),
    /// An entry of a schema's children array: the handle of the child, or
    /// `None` for a null pointer.
    Child(usize, i64),
}

/// The schema graph as the reader sees it: what each read gives back.
pub ghost struct SchemaMemory {
    pub header: spec_fn(usize) -> SchemaHeader,
    pub format: spec_fn(usize) -> Seq<u8>,
    pub name: spec_fn(usize) -> Seq<u8>,
    pub child: spec_fn(usize, i64) -> Option<usize>,
}

/// The reads a check makes, in order, and its result.
pub type Trace = (Seq<SchemaRead>, Result<(), SchemaError>);

/// A check that fails before reading anything more.
pub open spec fn fails(e: SchemaError) -> Trace {
    (Seq::empty(), Err(e))
}

/// A check that succeeds without reading anything more.
pub open spec fn passes() -> Trace {
    (Seq::empty(), Ok(()))
}

/// One read, then the rest of a check.
pub open spec fn after_read(read: SchemaRead, rest: Trace) -> Trace {
    (seq![read] + rest.0, rest.1)
}

/// Two checks in sequence: the second only runs when the first passes.
pub open spec fn followed_by(first: Trace, second: Trace) -> Trace {
    match first.1 {
        Err(_) => first,
        Ok(_) => (first.0 + second.0, second.1),
    }
}

impl SchemaMemory {
    /// Validate the schema `h` at nesting depth `depth`: its struct, its
    /// strings, its children in order, then its dictionary.
    pub open spec fn visit(self, h: usize, depth: int) -> Trace
        decreases MAX_DEPTH + 1 - depth, 6int, 0int,
    {
        if depth > MAX_DEPTH {
            fails(SchemaError::TooDeep)
        } else {
            self.header_stage(h, depth)
        }
    }

    /// Read the struct; reject it when released or when its format is null.
    pub open spec fn header_stage(self, h: usize, depth: int) -> Trace
        decreases MAX_DEPTH + 1 - depth, 5int, 0int,
    {
        let header = (self.header)(h);
        after_read(
            SchemaRead::Header(h),
            if !header.has_release {
                fails(SchemaError::Released)
            } else if !header.has_format {
                fails(SchemaError::FormatNull)
            } else {
                self.format_stage(h, depth)
            },
        )
    }

    /// Read the format string; reject it unless it is UTF-8.
    pub open spec fn format_stage(self, h: usize, depth: int) -> Trace
        decreases MAX_DEPTH + 1 - depth, 4int, 0int,
    {
        after_read(
            SchemaRead::Format(h),
            if !valid_utf8((self.format)(h)) {
                fails(SchemaError::FormatNotUtf8)
            } else {
                self.name_stage(h, depth)
            },
        )
    }

    /// Read the name string, if its pointer is non-null; reject it unless it is UTF-8.
    pub open spec fn name_stage(self, h: usize, depth: int) -> Trace
        decreases MAX_DEPTH + 1 - depth, 3int, 0int,
    {
        if (self.header)(h).has_name {
            after_read(
                SchemaRead::Name(h),
                if !valid_utf8((self.name)(h)) {
                    fails(SchemaError::NameNotUtf8)
                } else {
                    self.count_stage(h, depth)
                },
            )
        } else {
            self.count_stage(h, depth)
        }
    }

    /// Check the child count and the children pointer.
    pub open spec fn count_stage(self, h: usize, depth: int) -> Trace
        decreases MAX_DEPTH + 1 - depth, 2int, 0int,
    {
        let header = (self.header)(h);
        if header.n_children < 0 {
            fails(SchemaError::NegativeChildren)
        } else if header.n_children > 0 {
            if !header.has_children {
                fails(SchemaError::ChildrenNull)
            } else {
                self.children_stage(h, depth, 0)
            }
        } else {
            self.dictionary_stage(h, depth)
        }
    }

    /// Read and validate the children from index `i` on, then the dictionary.
    /// (Only reached at a depth the walk accepted; deeper, it fails.)
    pub open spec fn children_stage(self, h: usize, depth: int, i: int) -> Trace
        decreases MAX_DEPTH + 1 - depth, 1int, (self.header)(h).n_children - i,
    {
        let header = (self.header)(h);
        if depth > MAX_DEPTH {
            fails(SchemaError::TooDeep)
        } else if i >= header.n_children {
            self.dictionary_stage(h, depth)
        } else {
            after_read(
                SchemaRead::Child(h, i as i64),
                match (self.child)(h, i as i64) {
                    None => fails(SchemaError::ChildNull(i as u64)),
                    Some(c) => followed_by(
                        self.visit(c, depth + 1),
                        self.children_stage(h, depth, i + 1),
                    ),
                },
            )
        }
    }

    /// Validate the dictionary, if its pointer is non-null.
    /// (Only reached at a depth the walk accepted; deeper, it fails.)
    pub open spec fn dictionary_stage(self, h: usize, depth: int) -> Trace
        decreases MAX_DEPTH + 1 - depth, 0int, 0int,
    {
        if depth > MAX_DEPTH {
            fails(SchemaError::TooDeep)
        } else {
            match (self.header)(h).dictionary {
                None => passes(),
                Some(d) => self.visit(d, depth + 1),
            }
        }
    }

    /// The reads that validating the schema tree at `root` makes, and its result.
    pub open spec fn validate(self, root: usize) -> Trace {
        self.visit(root, 0)
    }
}

/// Where a schema under check is in its check.
#[derive(Clone, Copy, Debug, PartialEq, Eq, Structural)]
pub enum Stage {
    /// Waiting for its struct.
    AwaitHeader,
    /// Waiting for its format string.
    AwaitFormat,
    /// Waiting for its name string.
    AwaitName,
    /// Waiting for the entry at this index of its children array.
    AwaitChild(i64),
    /// A child is under check; the children from this index on come next.
    AfterChild(i64),
    /// Its dictionary is under check; nothing comes after it.
    AfterDictionary,
}

/// A schema under check.
#[derive(Clone, Copy, Debug, PartialEq, Eq, Structural)]
pub struct Frame {
    pub handle: usize,
    pub depth: usize,
    /// Its struct, once read.
    pub header: SchemaHeader,
    pub stage: Stage,
}

/// What the reader gives back for a read.
#[derive(Debug)]
pub enum SchemaReply {
    Header(SchemaHeader),
    Format(Vec<u8>),
    Name(Vec<u8>),
    Child(Option<usize>),
}

/// What the walk asks for next: a read, or nothing more, with its result.
#[derive(Debug)]
pub enum WalkRequest {
    Read(SchemaRead),
    Done(Result<(), SchemaError>),
}

/// A check of a schema tree in progress.
#[derive(Debug)]
pub struct SchemaWalk {
    frames: Vec<Frame>,
    finished: Option<Result<(), SchemaError>>,
}

/// The state of a walk: the schemas under check, innermost last, or the result.
pub ghost struct WalkState {
    pub frames: Seq<Frame>,
    pub finished: Option<Result<(), SchemaError>>,
}

impl View for SchemaWalk {
    type V = WalkState;

    closed spec fn view(&self) -> WalkState {
        WalkState { frames: self.frames@, finished: self.finished }
    }
}

/// The header a frame holds before its struct is read.
pub open spec fn unread_header() -> SchemaHeader {
    SchemaHeader {
        has_release: false,
        has_format: false,
        has_name: false,
        n_children: 0,
        has_children: false,
        dictionary: None,
    }
}

/// The frame of a schema whose struct is still to be read.
pub open spec fn unread_frame(handle: usize, depth: usize) -> Frame {
    Frame { handle, depth, header: unread_header(), stage: Stage::AwaitHeader }
}

/// The stage waits for a read.
pub open spec fn is_awaiting(stage: Stage) -> bool {
    match stage {
        Stage::AwaitHeader | Stage::AwaitFormat | Stage::AwaitName | Stage::AwaitChild(_) => true,
        _ => false,
    }
}

impl WalkState {
    pub open spec fn top(self) -> Frame {
        self.frames.last()
    }

    pub open spec fn finish(self, result: Result<(), SchemaError>) -> WalkState {
        WalkState { frames: self.frames, finished: Some(result) }
    }

    pub open spec fn with_top(self, f: Frame) -> WalkState {
        WalkState { frames: self.frames.drop_last().push(f), finished: self.finished }
    }

    pub open spec fn with_top_stage(self, stage: Stage) -> WalkState {
        self.with_top(Frame { stage, ..self.top() })
    }

    pub open spec fn pushed(self, f: Frame) -> WalkState {
        WalkState { frames: self.frames.push(f), finished: self.finished }
    }

    pub open spec fn popped(self) -> WalkState {
        WalkState { frames: self.frames.drop_last(), finished: self.finished }
    }

    /// What the walk asks for in this state.
    pub open spec fn request(self) -> WalkRequest {
        match self.finished {
            Some(r) => WalkRequest::Done(r),
            None => if self.frames.len() == 0 {
                WalkRequest::Done(Ok(()))
            } else {
                let f = self.top();
                match f.stage {
                    Stage::AwaitHeader => WalkRequest::Read(SchemaRead::Header(f.handle)),
                    Stage::AwaitFormat => WalkRequest::Read(SchemaRead::Format(f.handle)),
                    Stage::AwaitName => WalkRequest::Read(SchemaRead::Name(f.handle)),
                    Stage::AwaitChild(i) => WalkRequest::Read(SchemaRead::Child(f.handle, i)),
                    _ => WalkRequest::Done(Ok(())),
                }
            },
        }
    }

    /// Go on from the top schema's struct and strings: check its child count.
    pub open spec fn count_step(self) -> WalkState {
        let f = self.top();
        if f.header.n_children < 0 {
            self.finish(Err(SchemaError::NegativeChildren))
        } else if f.header.n_children > 0 {
            if !f.header.has_children {
                self.finish(Err(SchemaError::ChildrenNull))
            } else {
                self.with_top_stage(Stage::AwaitChild(0))
            }
        } else {
            self.dictionary_step()
        }
    }

    /// Go on from the top schema's children: check its dictionary, or drop
    /// the schema when it has none.
    pub open spec fn dictionary_step(self) -> WalkState
        decreases self.frames.len(), 0int,
    {
        if self.frames.len() == 0 {
            self
        } else {
            let f = self.top();
            match f.header.dictionary {
                None => self.popped().resume(),
                Some(d) => if f.depth >= MAX_DEPTH {
                    self.finish(Err(SchemaError::TooDeep))
                } else {
                    self.with_top_stage(Stage::AfterDictionary).pushed(
                        unread_frame(d, (f.depth + 1) as usize),
                    )
                },
            }
        }
    }

    /// Go on with the schema whose child or dictionary was just checked.
    pub open spec fn resume(self) -> WalkState
        decreases self.frames.len(), 1int,
    {
        if self.frames.len() == 0 {
            self.finish(Ok(()))
        } else {
            let f = self.top();
            match f.stage {
                Stage::AfterChild(i) => if i < f.header.n_children {
                    self.with_top_stage(Stage::AwaitChild(i))
                } else {
                    self.dictionary_step()
                },
                Stage::AfterDictionary => self.popped().resume(),
                _ => self,
            }
        }
    }

    /// The state after the reader answers the request. A reply of another
    /// kind than the request leaves the state as it is.
    pub open spec fn advance(self, reply: SchemaReply) -> WalkState {
        if self.finished is Some || self.frames.len() == 0 {
            self
        } else {
            let f = self.top();
            match (f.stage, reply) {
                (Stage::AwaitHeader, SchemaReply::Header(header)) => if !header.has_release {
                    self.finish(Err(SchemaError::Released))
                } else if !header.has_format {
                    self.finish(Err(SchemaError::FormatNull))
                } else {
                    self.with_top(Frame { header, stage: Stage::AwaitFormat, ..f })
                },
                (Stage::AwaitFormat, SchemaReply::Format(bytes)) => if !valid_utf8(bytes@) {
                    self.finish(Err(SchemaError::FormatNotUtf8))
                } else if f.header.has_name {
                    self.with_top_stage(Stage::AwaitName)
                } else {
                    self.count_step()
                },
                (Stage::AwaitName, SchemaReply::Name(bytes)) => if !valid_utf8(bytes@) {
                    self.finish(Err(SchemaError::NameNotUtf8))
                } else {
                    self.count_step()
                },
                (Stage::AwaitChild(i), SchemaReply::Child(entry)) => if !(0 <= i
                    < f.header.n_children) {
                    self
                } else {
                    match entry {
                    None => self.finish(Err(SchemaError::ChildNull(i as u64))),
                    Some(c) => if f.depth >= MAX_DEPTH {
                        self.finish(Err(SchemaError::TooDeep))
                    } else {
                        self.with_top_stage(Stage::AfterChild((i + 1) as i64)).pushed(
                            unread_frame(c, (f.depth + 1) as usize),
                        )
                    },
                    }
                },
                _ => self,
            }
        }
    }
}

impl SchemaMemory {
    /// The reads that remain in the check of one schema under check, and its result.
    pub open spec fn frame_trace(self, f: Frame) -> Trace {
        match f.stage {
            Stage::AwaitHeader => self.header_stage(f.handle, f.depth as int),
            Stage::AwaitFormat => self.format_stage(f.handle, f.depth as int),
            Stage::AwaitName => self.name_stage(f.handle, f.depth as int),
            Stage::AwaitChild(i) => self.children_stage(f.handle, f.depth as int, i as int),
            Stage::AfterChild(i) => self.children_stage(f.handle, f.depth as int, i as int),
            Stage::AfterDictionary => passes(),
        }
    }

    /// The reads that remain for a stack of schemas under check, innermost
    /// last: each one's rest runs once the one above it has passed.
    pub open spec fn frames_trace(self, frames: Seq<Frame>) -> Trace
        decreases frames.len(),
    {
        if frames.len() == 0 {
            passes()
        } else {
            followed_by(self.frame_trace(frames.last()), self.frames_trace(frames.drop_last()))
        }
    }

    /// What a frame holds agrees with the memory.
    pub open spec fn frame_agrees(self, f: Frame) -> bool {
        &&& f.depth <= MAX_DEPTH
        &&& f.stage != Stage::AwaitHeader ==> f.header == (self.header)(f.handle)
        &&& match f.stage {
            Stage::AwaitName => f.header.has_name,
            Stage::AwaitChild(i) => 0 <= i < f.header.n_children,
            Stage::AfterChild(i) => 0 <= i,
            _ => true,
        }
    }

    /// Every frame of a stack agrees with the memory, and every frame but
    /// the top one waits for a check above it to pass.
    pub open spec fn stack_agrees(self, frames: Seq<Frame>) -> bool {
        &&& forall|k: int| 0 <= k < frames.len() ==> self.frame_agrees(#[trigger] frames[k])
        &&& forall|k: int| 0 <= k < frames.len() - 1 ==> !is_awaiting(#[trigger] frames[k].stage)
    }
}

impl WalkState {
    /// The reads the walk still has to make, and the result it will report.
    pub open spec fn remaining(self, m: SchemaMemory) -> Trace {
        match self.finished {
            Some(r) => (Seq::empty(), r),
            None => m.frames_trace(self.frames),
        }
    }

    /// Everything the walk has read so far agrees with `m`.
    pub open spec fn agrees_with(self, m: SchemaMemory) -> bool {
        &&& m.stack_agrees(self.frames)
        &&& self.finished is None ==> self.frames.len() > 0 && is_awaiting(self.top().stage)
    }
}

impl WalkState {
    /// Each frame's depth is its place in the stack, and none is beyond the
    /// depth cap.
    pub open spec fn well_formed(self) -> bool {
        forall|k: int|
            0 <= k < self.frames.len() ==> (#[trigger] self.frames[k]).depth == k
                && self.frames[k].depth <= MAX_DEPTH
    }
}

/// The state of a walk over the tree at `root` before any read.
pub open spec fn start_state(root: usize) -> WalkState {
    WalkState { frames: seq![unread_frame(root, 0)], finished: None }
}

/// `reply` is what `m` gives back for the read that `request` asks for.
pub open spec fn answers(m: SchemaMemory, request: WalkRequest, reply: SchemaReply) -> bool {
    match request {
        WalkRequest::Read(SchemaRead::Header(h)) => reply == SchemaReply::Header((m.header)(h)),
        WalkRequest::Read(SchemaRead::Format(h)) => reply matches SchemaReply::Format(bytes)
            && bytes@ == (m.format)(h),
        WalkRequest::Read(SchemaRead::Name(h)) => reply matches SchemaReply::Name(bytes) && bytes@
            == (m.name)(h),
        WalkRequest::Read(SchemaRead::Child(h, i)) => reply == SchemaReply::Child((m.child)(h, i)),
        WalkRequest::Done(_) => false,
    }
}

proof fn lemma_followed_by_passes(t: Trace)
    ensures
        followed_by(t, passes()) == t,
{
    assert(t.0 + Seq::<SchemaRead>::empty() =~= t.0);
    match t.1 {
        Ok(u) => {
            let v: () = u;
            assert(v == ());
            assert(t.1 == Ok::<(), SchemaError>(()));
        },
        Err(_) => {},
    }
}

proof fn lemma_read_then(read: SchemaRead, rest: Trace, next: Trace)
    ensures
        followed_by(after_read(read, rest), next) == after_read(read, followed_by(rest, next)),
{
    assert(seq![read] + rest.0 + next.0 =~= seq![read] + (rest.0 + next.0));
}

proof fn lemma_followed_by_assoc(a: Trace, b: Trace, c: Trace)
    ensures
        followed_by(followed_by(a, b), c) == followed_by(a, followed_by(b, c)),
{
    assert(a.0 + b.0 + c.0 =~= a.0 + (b.0 + c.0));
}

proof fn lemma_frames_trace_push(m: SchemaMemory, frames: Seq<Frame>, f: Frame)
    ensures
        m.frames_trace(frames.push(f)) == followed_by(m.frame_trace(f), m.frames_trace(frames)),
{
    assert(frames.push(f).drop_last() =~= frames);
}

/// Replacing the top frame of an agreeing stack by an agreeing frame keeps
/// the stack agreeing.
proof fn lemma_replace_top(m: SchemaMemory, w: WalkState, g: Frame)
    requires
        m.stack_agrees(w.frames),
        w.frames.len() > 0,
        m.frame_agrees(g),
    ensures
        m.stack_agrees(w.frames.drop_last().push(g)),
{
    let s = w.frames.drop_last().push(g);
    assert forall|k: int| 0 <= k < s.len() implies m.frame_agrees(#[trigger] s[k]) by {
        if k < s.len() - 1 {
            assert(s[k] == w.frames[k]);
        }
    }
    assert forall|k: int| 0 <= k < s.len() - 1 implies !is_awaiting(#[trigger] s[k].stage) by {
        assert(s[k] == w.frames[k]);
    }
}

/// Pushing an agreeing frame on an agreeing stack whose top waits for it
/// keeps the stack agreeing.
proof fn lemma_push_on(m: SchemaMemory, s: Seq<Frame>, f: Frame)
    requires
        m.stack_agrees(s),
        s.len() > 0 ==> !is_awaiting(s.last().stage),
        m.frame_agrees(f),
    ensures
        m.stack_agrees(s.push(f)),
{
    let t = s.push(f);
    assert forall|k: int| 0 <= k < t.len() implies m.frame_agrees(#[trigger] t[k]) by {
        if k < s.len() {
            assert(t[k] == s[k]);
        }
    }
    assert forall|k: int| 0 <= k < t.len() - 1 implies !is_awaiting(#[trigger] t[k].stage) by {
        assert(t[k] == s[k]);
    }
}

/// The rest of the check of a schema after its children: its dictionary,
/// then the schemas below it.
proof fn lemma_dictionary_step(m: SchemaMemory, w: WalkState)
    requires
        w.finished is None,
        w.frames.len() > 0,
        m.stack_agrees(w.frames),
        w.top().stage != Stage::AwaitHeader,
    ensures
        w.dictionary_step().agrees_with(m),
        w.dictionary_step().remaining(m) == followed_by(
            m.dictionary_stage(w.top().handle, w.top().depth as int),
            m.frames_trace(w.frames.drop_last()),
        ),
    decreases w.frames.len(), 0int,
{
    let f = w.top();
    let below = w.frames.drop_last();
    assert(m.frame_agrees(w.frames[w.frames.len() - 1]));
    match f.header.dictionary {
        None => {
            lemma_resume(m, w.popped());
            lemma_followed_by_passes(m.frames_trace(below));
            assert(passes().0 + m.frames_trace(below).0 =~= m.frames_trace(below).0);
        },
        Some(d) => {
            if f.depth >= MAX_DEPTH {
            } else {
                let g = Frame { stage: Stage::AfterDictionary, ..f };
                let n = unread_frame(d, (f.depth + 1) as usize);
                let w2 = w.with_top_stage(Stage::AfterDictionary).pushed(n);
                assert(w2.frames =~= below.push(g).push(n));
                lemma_frames_trace_push(m, below.push(g), n);
                lemma_frames_trace_push(m, below, g);
                lemma_followed_by_passes(m.visit(d, f.depth + 1));
                lemma_followed_by_assoc(m.visit(d, f.depth + 1), passes(), m.frames_trace(below));
                assert(passes().0 + m.frames_trace(below).0 =~= m.frames_trace(below).0);
                lemma_replace_top(m, w, g);
                lemma_push_on(m, below.push(g), n);
            }
        },
    }
}

/// Resuming after a passed check goes on with the rest of the schemas below.
proof fn lemma_resume(m: SchemaMemory, w: WalkState)
    requires
        w.finished is None,
        m.stack_agrees(w.frames),
        w.frames.len() > 0 ==> !is_awaiting(w.top().stage),
    ensures
        w.resume().agrees_with(m),
        w.resume().remaining(m) == m.frames_trace(w.frames),
    decreases w.frames.len(), 1int,
{
    if w.frames.len() == 0 {
    } else {
        let f = w.top();
        let below = w.frames.drop_last();
        assert(m.frame_agrees(w.frames[w.frames.len() - 1]));
        assert(!is_awaiting(w.frames[w.frames.len() - 1].stage));
        match f.stage {
            Stage::AfterChild(i) => {
                if i < f.header.n_children {
                    let g = Frame { stage: Stage::AwaitChild(i), ..f };
                    let w2 = w.with_top_stage(Stage::AwaitChild(i));
                    assert(w2.frames =~= below.push(Frame { stage: Stage::AwaitChild(i), ..f }));
                    lemma_frames_trace_push(m, below, Frame { stage: Stage::AwaitChild(i), ..f });
                    lemma_replace_top(m, w, g);
                } else {
                    lemma_dictionary_step(m, w);
                }
            },
            Stage::AfterDictionary => {
                lemma_resume(m, w.popped());
                assert(passes().0 + m.frames_trace(below).0 =~= m.frames_trace(below).0);
            },
            _ => {},
        }
    }
}

/// The rest of the check of a schema after its strings: its child count,
/// children and dictionary, then the schemas below it.
proof fn lemma_count_step(m: SchemaMemory, w: WalkState)
    requires
        w.finished is None,
        w.frames.len() > 0,
        m.stack_agrees(w.frames),
        w.top().stage != Stage::AwaitHeader,
    ensures
        w.count_step().agrees_with(m),
        w.count_step().remaining(m) == followed_by(
            m.count_stage(w.top().handle, w.top().depth as int),
            m.frames_trace(w.frames.drop_last()),
        ),
{
    let f = w.top();
    let below = w.frames.drop_last();
    assert(m.frame_agrees(w.frames[w.frames.len() - 1]));
    if f.header.n_children < 0 {
    } else if f.header.n_children > 0 {
        if !f.header.has_children {
        } else {
            let g = Frame { stage: Stage::AwaitChild(0), ..f };
            let w2 = w.with_top_stage(Stage::AwaitChild(0));
            assert(w2.frames =~= below.push(g));
            lemma_frames_trace_push(m, below, g);
            lemma_replace_top(m, w, g);
        }
    } else {
        lemma_dictionary_step(m, w);
    }
}

/// A well-formed walk holds at most `MAX_DEPTH + 1` schemas under check,
/// however deep or cyclic the tree: its stack cannot grow without bound.
pub proof fn lemma_frames_bounded(w: WalkState)
    requires
        w.well_formed(),
    ensures
        w.frames.len() <= MAX_DEPTH + 1,
{
    if w.frames.len() > 0 {
        assert(w.frames[w.frames.len() - 1].depth == w.frames.len() - 1);
    }
}

proof fn lemma_wf_replace_top(w: WalkState, g: Frame)
    requires
        w.well_formed(),
        w.frames.len() > 0,
        g.depth == w.top().depth,
    ensures
        w.with_top(g).well_formed(),
{
    let s = w.with_top(g).frames;
    assert forall|k: int| 0 <= k < s.len() implies (#[trigger] s[k]).depth == k && s[k].depth
        <= MAX_DEPTH by {
        if k < s.len() - 1 {
            assert(s[k] == w.frames[k]);
        } else {
            assert(w.frames[w.frames.len() - 1].depth == w.frames.len() - 1);
        }
    }
}

proof fn lemma_wf_push(w: WalkState, f: Frame)
    requires
        w.well_formed(),
        f.depth == w.frames.len(),
        f.depth <= MAX_DEPTH,
    ensures
        w.pushed(f).well_formed(),
{
    let s = w.pushed(f).frames;
    assert forall|k: int| 0 <= k < s.len() implies (#[trigger] s[k]).depth == k && s[k].depth
        <= MAX_DEPTH by {
        if k < w.frames.len() {
            assert(s[k] == w.frames[k]);
        }
    }
}

proof fn lemma_wf_pop(w: WalkState)
    requires
        w.well_formed(),
        w.frames.len() > 0,
    ensures
        w.popped().well_formed(),
{
    let s = w.popped().frames;
    assert forall|k: int| 0 <= k < s.len() implies (#[trigger] s[k]).depth == k && s[k].depth
        <= MAX_DEPTH by {
        assert(s[k] == w.frames[k]);
    }
}

proof fn lemma_wf_dictionary_step(w: WalkState)
    requires
        w.well_formed(),
    ensures
        w.dictionary_step().well_formed(),
    decreases w.frames.len(), 0int,
{
    if w.frames.len() > 0 {
        let f = w.top();
        assert(w.frames[w.frames.len() - 1].depth == w.frames.len() - 1);
        match f.header.dictionary {
            None => {
                lemma_wf_pop(w);
                lemma_wf_resume(w.popped());
            },
            Some(d) => {
                if f.depth < MAX_DEPTH {
                    let w1 = w.with_top_stage(Stage::AfterDictionary);
                    lemma_wf_replace_top(w, Frame { stage: Stage::AfterDictionary, ..f });
                    lemma_wf_push(w1, unread_frame(d, (f.depth + 1) as usize));
                }
            },
        }
    }
}

proof fn lemma_wf_resume(w: WalkState)
    requires
        w.well_formed(),
    ensures
        w.resume().well_formed(),
    decreases w.frames.len(), 1int,
{
    if w.frames.len() > 0 {
        let f = w.top();
        match f.stage {
            Stage::AfterChild(i) => {
                if i < f.header.n_children {
                    lemma_wf_replace_top(w, Frame { stage: Stage::AwaitChild(i), ..f });
                } else {
                    lemma_wf_dictionary_step(w);
                }
            },
            Stage::AfterDictionary => {
                lemma_wf_pop(w);
                lemma_wf_resume(w.popped());
            },
            _ => {},
        }
    }
}

proof fn lemma_wf_count_step(w: WalkState)
    requires
        w.well_formed(),
        w.frames.len() > 0,
    ensures
        w.count_step().well_formed(),
{
    let f = w.top();
    lemma_wf_replace_top(w, Frame { stage: Stage::AwaitChild(0), ..f });
    lemma_wf_dictionary_step(w);
}

/// Whatever the reader answers, a well-formed walk stays well-formed.
pub proof fn lemma_advance_well_formed(w: WalkState, reply: SchemaReply)
    requires
        w.well_formed(),
    ensures
        w.advance(reply).well_formed(),
{
    if w.finished is None && w.frames.len() > 0 {
        let f = w.top();
        assert(w.frames[w.frames.len() - 1].depth == w.frames.len() - 1);
        match (f.stage, reply) {
            (Stage::AwaitHeader, SchemaReply::Header(header)) => {
                lemma_wf_replace_top(w, Frame { header, stage: Stage::AwaitFormat, ..f });
            },
            (Stage::AwaitFormat, SchemaReply::Format(bytes)) => {
                lemma_wf_replace_top(w, Frame { stage: Stage::AwaitName, ..f });
                lemma_wf_count_step(w);
            },
            (Stage::AwaitName, SchemaReply::Name(bytes)) => {
                lemma_wf_count_step(w);
            },
            (Stage::AwaitChild(i), SchemaReply::Child(entry)) => {
                if let Some(c) = entry {
                    if f.depth < MAX_DEPTH && 0 <= i < f.header.n_children {
                        let g = Frame { stage: Stage::AfterChild((i + 1) as i64), ..f };
                        lemma_wf_replace_top(w, g);
                        lemma_wf_push(
                            w.with_top_stage(Stage::AfterChild((i + 1) as i64)),
                            unread_frame(c, (f.depth + 1) as usize),
                        );
                    }
                }
            },
            _ => {},
        }
    }
}

/// A walk starts with the whole check of the tree ahead of it.
pub proof fn lemma_start(m: SchemaMemory, root: usize)
    ensures
        start_state(root).agrees_with(m),
        start_state(root).remaining(m) == m.validate(root),
{
    let w = start_state(root);
    assert(w.frames.drop_last() =~= Seq::<Frame>::empty());
    assert(m.frames_trace(w.frames.drop_last()) == passes());
    assert(m.frame_trace(w.frames.last()) == m.header_stage(root, 0));
    lemma_followed_by_passes(m.header_stage(root, 0));
    assert(m.validate(root) == m.header_stage(root, 0));
}

/// The walk asks for exactly the next read that the check makes, and once
/// the check makes none, it reports the check's result.
pub proof fn lemma_request(m: SchemaMemory, w: WalkState)
    requires
        w.agrees_with(m),
    ensures
        match w.request() {
            WalkRequest::Read(read) => w.remaining(m).0.len() > 0 && w.remaining(m).0[0] == read,
            WalkRequest::Done(result) => w.remaining(m).0.len() == 0 && w.remaining(m).1
                == result,
        },
{
    if w.finished is None {
        let f = w.top();
        let below = w.frames.drop_last();
        assert(m.frame_agrees(w.frames[w.frames.len() - 1]));
        let t = m.frame_trace(f);
        assert(t.0.len() > 0 && t.0[0] == match f.stage {
            Stage::AwaitHeader => SchemaRead::Header(f.handle),
            Stage::AwaitFormat => SchemaRead::Format(f.handle),
            Stage::AwaitName => SchemaRead::Name(f.handle),
            Stage::AwaitChild(i) => SchemaRead::Child(f.handle, i),
            _ => SchemaRead::Header(f.handle),
        });
    }
}

/// Answering the request moves the walk past exactly the read it asked
/// for: the reads still ahead lose their first, and the result stays.
pub proof fn lemma_advance(m: SchemaMemory, w: WalkState, reply: SchemaReply)
    requires
        w.agrees_with(m),
        answers(m, w.request(), reply),
    ensures
        w.advance(reply).agrees_with(m),
        w.advance(reply).remaining(m) == (w.remaining(m).0.drop_first(), w.remaining(m).1),
{
    let f = w.top();
    let below = w.frames.drop_last();
    let h = f.handle;
    let d = f.depth as int;
    let rest = m.frames_trace(below);
    assert(m.frame_agrees(w.frames[w.frames.len() - 1]));
    assert(w.frames =~= below.push(f));
    lemma_frames_trace_push(m, below, f);
    let w2 = w.advance(reply);
    match f.stage {
        Stage::AwaitHeader => {
            let header = (m.header)(h);
            let x = if !header.has_release {
                fails(SchemaError::Released)
            } else if !header.has_format {
                fails(SchemaError::FormatNull)
            } else {
                m.format_stage(h, d)
            };
            lemma_read_then(SchemaRead::Header(h), x, rest);
            assert((seq![SchemaRead::Header(h)] + followed_by(x, rest).0).drop_first() =~= followed_by(x, rest).0);
            if header.has_release && header.has_format {
                let g = Frame { header, stage: Stage::AwaitFormat, ..f };
                assert(w2.frames =~= below.push(g));
                lemma_frames_trace_push(m, below, g);
                lemma_replace_top(m, w, g);
            }
        },
        Stage::AwaitFormat => {
            let bytes = reply->Format_0;
            let x = if !valid_utf8((m.format)(h)) {
                fails(SchemaError::FormatNotUtf8)
            } else {
                m.name_stage(h, d)
            };
            lemma_read_then(SchemaRead::Format(h), x, rest);
            assert((seq![SchemaRead::Format(h)] + followed_by(x, rest).0).drop_first() =~= followed_by(x, rest).0);
            if valid_utf8(bytes@) {
                if f.header.has_name {
                    let g = Frame { stage: Stage::AwaitName, ..f };
                    assert(w2.frames =~= below.push(g));
                    lemma_frames_trace_push(m, below, g);
                    lemma_replace_top(m, w, g);
                } else {
                    lemma_count_step(m, w);
                }
            }
        },
        Stage::AwaitName => {
            let bytes = reply->Name_0;
            let x = if !valid_utf8((m.name)(h)) {
                fails(SchemaError::NameNotUtf8)
            } else {
                m.count_stage(h, d)
            };
            lemma_read_then(SchemaRead::Name(h), x, rest);
            assert((seq![SchemaRead::Name(h)] + followed_by(x, rest).0).drop_first() =~= followed_by(x, rest).0);
            if valid_utf8(bytes@) {
                lemma_count_step(m, w);
            }
        },
        Stage::AwaitChild(i) => {
            let entry = (m.child)(h, i);
            let x = match entry {
                None => fails(SchemaError::ChildNull(i as u64)),
                Some(c) => followed_by(m.visit(c, d + 1), m.children_stage(h, d, i + 1)),
            };
            lemma_read_then(SchemaRead::Child(h, i), x, rest);
            assert((seq![SchemaRead::Child(h, i)] + followed_by(x, rest).0).drop_first() =~= followed_by(x, rest).0);
            match entry {
                None => {},
                Some(c) => {
                    if f.depth < MAX_DEPTH {
                        let g = Frame { stage: Stage::AfterChild((i + 1) as i64), ..f };
                        let n = unread_frame(c, (f.depth + 1) as usize);
                        assert(w2.frames =~= below.push(g).push(n));
                        lemma_frames_trace_push(m, below.push(g), n);
                        lemma_frames_trace_push(m, below, g);
                        lemma_followed_by_assoc(
                            m.visit(c, d + 1),
                            m.children_stage(h, d, i + 1),
                            rest,
                        );
                        lemma_replace_top(m, w, g);
                        lemma_push_on(m, below.push(g), n);
                    }
                },
            }
        },
        _ => {},
    }
}

/// `std::str::from_utf8` accepts exactly the well-formed UTF-8 byte
/// sequences (the Unicode definition, which vstd's `valid_utf8` states).
#[verifier::external_body]
fn is_utf8(bytes: &[u8]) -> (r: bool)
    ensures
        r == valid_utf8(bytes@),
{
    std::str::from_utf8(bytes).is_ok()
}

fn unread() -> (r: SchemaHeader)
    ensures
        r == unread_header(),
{
    SchemaHeader {
        has_release: false,
        has_format: false,
        has_name: false,
        n_children: 0,
        has_children: false,
        dictionary: None,
    }
}

impl SchemaWalk {
    /// A walk that checks the schema tree at `root`.
    pub fn new(root: usize) -> (w: SchemaWalk)
        ensures
            w@ == start_state(root),
            w@.well_formed(),
    {
        let mut frames: Vec<Frame> = Vec::new();
        frames.push(Frame { handle: root, depth: 0, header: unread(), stage: Stage::AwaitHeader });
        let w = SchemaWalk { frames, finished: None };
        assert(w@.frames =~= start_state(root).frames);
        w
    }

    /// What the walk asks for next.
    pub fn request(&self) -> (r: WalkRequest)
        ensures
            r == self@.request(),
    {
        match &self.finished {
            Some(Ok(u)) => WalkRequest::Done(Ok(*u)),
            Some(Err(e)) => WalkRequest::Done(Err(e.duplicate())),
            None => {
                if self.frames.len() == 0 {
                    return WalkRequest::Done(Ok(()));
                }
                let f = self.frames[self.frames.len() - 1];
                match f.stage {
                    Stage::AwaitHeader => WalkRequest::Read(SchemaRead::Header(f.handle)),
                    Stage::AwaitFormat => WalkRequest::Read(SchemaRead::Format(f.handle)),
                    Stage::AwaitName => WalkRequest::Read(SchemaRead::Name(f.handle)),
                    Stage::AwaitChild(i) => WalkRequest::Read(SchemaRead::Child(f.handle, i)),
                    _ => WalkRequest::Done(Ok(())),
                }
            },
        }
    }

    /// The result of the walk, once it has one.
    pub fn outcome(&self) -> (r: Option<Result<(), SchemaError>>)
        ensures
            r == self@.finished,
    {
        match &self.finished {
            None => None,
            Some(Ok(u)) => Some(Ok(*u)),
            Some(Err(e)) => Some(Err(e.duplicate())),
        }
    }

    fn finish(&mut self, result: Result<(), SchemaError>)
        ensures
            final(self)@ == old(self)@.finish(result),
    {
        self.finished = Some(result);
    }

    fn set_top(&mut self, f: Frame)
        requires
            old(self)@.frames.len() > 0,
        ensures
            final(self)@ == old(self)@.with_top(f),
    {
        let last = self.frames.len() - 1;
        self.frames.set(last, f);
        assert(self@.frames =~= old(self)@.with_top(f).frames);
    }

    fn set_top_stage(&mut self, stage: Stage)
        requires
            old(self)@.frames.len() > 0,
        ensures
            final(self)@ == old(self)@.with_top_stage(stage),
    {
        let f = self.frames[self.frames.len() - 1];
        self.set_top(Frame { stage, ..f });
    }

    fn push_unread(&mut self, handle: usize, depth: usize)
        ensures
            final(self)@ == old(self)@.pushed(unread_frame(handle, depth)),
    {
        self.frames.push(Frame { handle, depth, header: unread(), stage: Stage::AwaitHeader });
    }

    fn count_step(&mut self)
        requires
            old(self)@.frames.len() > 0,
        ensures
            final(self)@ == old(self)@.count_step(),
    {
        let f = self.frames[self.frames.len() - 1];
        if f.header.n_children < 0 {
            self.finish(Err(SchemaError::NegativeChildren));
        } else if f.header.n_children > 0 {
            if !f.header.has_children {
                self.finish(Err(SchemaError::ChildrenNull));
            } else {
                self.set_top_stage(Stage::AwaitChild(0));
            }
        } else {
            self.dictionary_step();
        }
    }

    /// The dictionary step, and the resumptions it leads to, in one loop.
    fn dictionary_step(&mut self)
        ensures
            final(self)@ == old(self)@.dictionary_step(),
    {
        let ghost target = self@.dictionary_step();
        let mut at_dictionary = true;
        loop
            invariant
                target == old(self)@.dictionary_step(),
                (if at_dictionary {
                    self@.dictionary_step()
                } else {
                    self@.resume()
                }) == target,
            decreases self@.frames.len(), (if at_dictionary {
                0int
            } else {
                1int
            }),
        {
            if self.frames.len() == 0 {
                if !at_dictionary {
                    self.finish(Ok(()));
                }
                return;
            }
            let f = self.frames[self.frames.len() - 1];
            if at_dictionary {
                match f.header.dictionary {
                    None => {
                        self.frames.pop();
                        at_dictionary = false;
                    },
                    Some(d) => {
                        if f.depth >= MAX_DEPTH {
                            self.finish(Err(SchemaError::TooDeep));
                        } else {
                            self.set_top_stage(Stage::AfterDictionary);
                            self.push_unread(d, f.depth + 1);
                        }
                        return;
                    },
                }
            } else {
                match f.stage {
                    Stage::AfterChild(i) => {
                        if i < f.header.n_children {
                            self.set_top_stage(Stage::AwaitChild(i));
                            return;
                        } else {
                            at_dictionary = true;
                        }
                    },
                    Stage::AfterDictionary => {
                        self.frames.pop();
                    },
                    _ => {
                        return;
                    },
                }
            }
        }
    }

    /// Take the reader's answer to the request. A reply of another kind than
    /// the request leaves the walk as it is.
    pub fn advance(&mut self, reply: SchemaReply)
        ensures
            final(self)@ == old(self)@.advance(reply),
            old(self)@.well_formed() ==> final(self)@.well_formed(),
            forall|m: SchemaMemory|
                #![trigger old(self)@.agrees_with(m)]
                old(self)@.agrees_with(m) && answers(m, old(self)@.request(), reply) ==> {
                    &&& final(self)@.agrees_with(m)
                    &&& final(self)@.remaining(m) == (
                        old(self)@.remaining(m).0.drop_first(),
                        old(self)@.remaining(m).1,
                    )
                },
    {
        proof {
            assert forall|m: SchemaMemory|
                #![trigger old(self)@.agrees_with(m)]
                old(self)@.agrees_with(m) && answers(m, old(self)@.request(), reply) implies {
                &&& old(self)@.advance(reply).agrees_with(m)
                &&& old(self)@.advance(reply).remaining(m) == (
                    old(self)@.remaining(m).0.drop_first(),
                    old(self)@.remaining(m).1,
                )
            } by {
                lemma_advance(m, old(self)@, reply);
            }
            if old(self)@.well_formed() {
                lemma_advance_well_formed(old(self)@, reply);
            }
        }
        if self.finished.is_some() || self.frames.len() == 0 {
            return;
        }
        let f = self.frames[self.frames.len() - 1];
        match (f.stage, reply) {
            (Stage::AwaitHeader, SchemaReply::Header(header)) => {
                if !header.has_release {
                    self.finish(Err(SchemaError::Released));
                } else if !header.has_format {
                    self.finish(Err(SchemaError::FormatNull));
                } else {
                    self.set_top(Frame { header, stage: Stage::AwaitFormat, ..f });
                }
            },
            (Stage::AwaitFormat, SchemaReply::Format(bytes)) => {
                if !is_utf8(bytes.as_slice()) {
                    self.finish(Err(SchemaError::FormatNotUtf8));
                } else if f.header.has_name {
                    self.set_top_stage(Stage::AwaitName);
                } else {
                    self.count_step();
                }
            },
            (Stage::AwaitName, SchemaReply::Name(bytes)) => {
                if !is_utf8(bytes.as_slice()) {
                    self.finish(Err(SchemaError::NameNotUtf8));
                } else {
                    self.count_step();
                }
            },
            (Stage::AwaitChild(i), SchemaReply::Child(entry)) => {
                if !(0 <= i && i < f.header.n_children) {
                    return;
                }
                match entry {
                    None => {
                        self.finish(Err(SchemaError::ChildNull(i as u64)));
                    },
                    Some(c) => {
                        if f.depth >= MAX_DEPTH {
                            self.finish(Err(SchemaError::TooDeep));
                        } else {
                            self.set_top_stage(Stage::AfterChild(i + 1));
                            self.push_unread(c, f.depth + 1);
                        }
                    },
                }
            },
            _ => {},
        }
    }
}

impl SchemaMemory {
    /// The struct fields that a check of `h` has accepted before it reads
    /// through `read`: strings and children are only read through pointers
    /// that were checked non-null, of a struct that is not released, in the
    /// order of the checks.
    pub open spec fn read_is_guarded(self, read: SchemaRead) -> bool {
        match read {
            SchemaRead::Header(_) => true,
            SchemaRead::Format(h) => (self.header)(h).has_release && (self.header)(h).has_format,
            SchemaRead::Name(h) => {
                &&& (self.header)(h).has_release
                &&& (self.header)(h).has_format
                &&& valid_utf8((self.format)(h))
                &&& (self.header)(h).has_name
            },
            SchemaRead::Child(h, i) => {
                let header = (self.header)(h);
                &&& header.has_release
                &&& header.has_format
                &&& valid_utf8((self.format)(h))
                &&& header.has_name ==> valid_utf8((self.name)(h))
                &&& 0 <= i < header.n_children
                &&& header.has_children
            },
        }
    }

    pub open spec fn trace_is_guarded(self, t: Trace) -> bool {
        forall|k: int| 0 <= k < t.0.len() ==> self.read_is_guarded(#[trigger] t.0[k])
    }
}

proof fn lemma_guarded_after_read(m: SchemaMemory, read: SchemaRead, rest: Trace)
    requires
        m.read_is_guarded(read),
        m.trace_is_guarded(rest),
    ensures
        m.trace_is_guarded(after_read(read, rest)),
{
    let t = after_read(read, rest);
    assert forall|k: int| 0 <= k < t.0.len() implies m.read_is_guarded(#[trigger] t.0[k]) by {
        if k > 0 {
            assert(t.0[k] == rest.0[k - 1]);
        }
    }
}

proof fn lemma_guarded_followed_by(m: SchemaMemory, first: Trace, second: Trace)
    requires
        m.trace_is_guarded(first),
        m.trace_is_guarded(second),
    ensures
        m.trace_is_guarded(followed_by(first, second)),
{
    let t = followed_by(first, second);
    if first.1 is Ok {
        assert forall|k: int| 0 <= k < t.0.len() implies m.read_is_guarded(#[trigger] t.0[k]) by {
            if k >= first.0.len() {
                assert(t.0[k] == second.0[k - first.0.len()]);
            } else {
                assert(t.0[k] == first.0[k]);
            }
        }
    }
}

proof fn lemma_visit_guarded(m: SchemaMemory, h: usize, depth: int)
    ensures
        m.trace_is_guarded(m.visit(h, depth)),
    decreases MAX_DEPTH + 1 - depth, 6int, 0int,
{
    if depth <= MAX_DEPTH {
        lemma_header_stage_guarded(m, h, depth);
    }
}

proof fn lemma_header_stage_guarded(m: SchemaMemory, h: usize, depth: int)
    ensures
        m.trace_is_guarded(m.header_stage(h, depth)),
    decreases MAX_DEPTH + 1 - depth, 5int, 0int,
{
    let header = (m.header)(h);
    if !header.has_release {
        lemma_guarded_after_read(m, SchemaRead::Header(h), fails(SchemaError::Released));
    } else if !header.has_format {
        lemma_guarded_after_read(m, SchemaRead::Header(h), fails(SchemaError::FormatNull));
    } else {
        lemma_format_stage_guarded(m, h, depth);
        lemma_guarded_after_read(m, SchemaRead::Header(h), m.format_stage(h, depth));
    }
}

proof fn lemma_format_stage_guarded(m: SchemaMemory, h: usize, depth: int)
    requires
        (m.header)(h).has_release,
        (m.header)(h).has_format,
    ensures
        m.trace_is_guarded(m.format_stage(h, depth)),
    decreases MAX_DEPTH + 1 - depth, 4int, 0int,
{
    if !valid_utf8((m.format)(h)) {
        lemma_guarded_after_read(m, SchemaRead::Format(h), fails(SchemaError::FormatNotUtf8));
    } else {
        lemma_name_stage_guarded(m, h, depth);
        lemma_guarded_after_read(m, SchemaRead::Format(h), m.name_stage(h, depth));
    }
}

proof fn lemma_name_stage_guarded(m: SchemaMemory, h: usize, depth: int)
    requires
        (m.header)(h).has_release,
        (m.header)(h).has_format,
        valid_utf8((m.format)(h)),
    ensures
        m.trace_is_guarded(m.name_stage(h, depth)),
    decreases MAX_DEPTH + 1 - depth, 3int, 0int,
{
    if (m.header)(h).has_name {
        if !valid_utf8((m.name)(h)) {
            lemma_guarded_after_read(m, SchemaRead::Name(h), fails(SchemaError::NameNotUtf8));
        } else {
            lemma_count_stage_guarded(m, h, depth);
            lemma_guarded_after_read(m, SchemaRead::Name(h), m.count_stage(h, depth));
        }
    } else {
        lemma_count_stage_guarded(m, h, depth);
    }
}

proof fn lemma_count_stage_guarded(m: SchemaMemory, h: usize, depth: int)
    requires
        (m.header)(h).has_release,
        (m.header)(h).has_format,
        valid_utf8((m.format)(h)),
        (m.header)(h).has_name ==> valid_utf8((m.name)(h)),
    ensures
        m.trace_is_guarded(m.count_stage(h, depth)),
    decreases MAX_DEPTH + 1 - depth, 2int, 0int,
{
    let header = (m.header)(h);
    if header.n_children < 0 {
    } else if header.n_children > 0 {
        if header.has_children {
            lemma_children_stage_guarded(m, h, depth, 0);
        }
    } else {
        lemma_dictionary_stage_guarded(m, h, depth);
    }
}

proof fn lemma_children_stage_guarded(m: SchemaMemory, h: usize, depth: int, i: int)
    requires
        (m.header)(h).has_release,
        (m.header)(h).has_format,
        valid_utf8((m.format)(h)),
        (m.header)(h).has_name ==> valid_utf8((m.name)(h)),
        (m.header)(h).has_children,
        0 <= i,
    ensures
        m.trace_is_guarded(m.children_stage(h, depth, i)),
    decreases MAX_DEPTH + 1 - depth, 1int, (m.header)(h).n_children - i,
{
    let header = (m.header)(h);
    if depth > MAX_DEPTH {
    } else if i >= header.n_children {
        lemma_dictionary_stage_guarded(m, h, depth);
    } else {
        let read = SchemaRead::Child(h, i as i64);
        match (m.child)(h, i as i64) {
            None => {
                lemma_guarded_after_read(m, read, fails(SchemaError::ChildNull(i as u64)));
            },
            Some(c) => {
                lemma_visit_guarded(m, c, depth + 1);
                lemma_children_stage_guarded(m, h, depth, i + 1);
                lemma_guarded_followed_by(
                    m,
                    m.visit(c, depth + 1),
                    m.children_stage(h, depth, i + 1),
                );
                lemma_guarded_after_read(
                    m,
                    read,
                    followed_by(m.visit(c, depth + 1), m.children_stage(h, depth, i + 1)),
                );
            },
        }
    }
}

proof fn lemma_dictionary_stage_guarded(m: SchemaMemory, h: usize, depth: int)
    ensures
        m.trace_is_guarded(m.dictionary_stage(h, depth)),
    decreases MAX_DEPTH + 1 - depth, 0int, 0int,
{
    if depth <= MAX_DEPTH {
        if let Some(d) = (m.header)(h).dictionary {
            lemma_visit_guarded(m, d, depth + 1);
        }
    }
}

/// The check reads a string or a children array only through pointers that
/// it checked non-null, of a struct whose release callback it found present,
/// and only once the checks before it have passed.
pub proof fn lemma_reads_are_guarded(m: SchemaMemory, root: usize)
    ensures
        m.trace_is_guarded(m.validate(root)),
{
    lemma_visit_guarded(m, root, 0);
}

/// A schema whose only child is itself is rejected by the depth cap, not
/// walked forever: the check fails with `TooDeep`.
pub proof fn lemma_self_cycle_too_deep(m: SchemaMemory, h: usize)
    requires
        (m.header)(h).has_release,
        (m.header)(h).has_format,
        valid_utf8((m.format)(h)),
        (m.header)(h).has_name ==> valid_utf8((m.name)(h)),
        (m.header)(h).n_children == 1,
        (m.header)(h).has_children,
        (m.child)(h, 0) == Some(h),
    ensures
        m.validate(h).1 == Err::<(), SchemaError>(SchemaError::TooDeep),
{
    lemma_self_cycle_at(m, h, 0);
}

proof fn lemma_self_cycle_at(m: SchemaMemory, h: usize, depth: int)
    requires
        (m.header)(h).has_release,
        (m.header)(h).has_format,
        valid_utf8((m.format)(h)),
        (m.header)(h).has_name ==> valid_utf8((m.name)(h)),
        (m.header)(h).n_children == 1,
        (m.header)(h).has_children,
        (m.child)(h, 0) == Some(h),
        0 <= depth,
    ensures
        m.visit(h, depth).1 == Err::<(), SchemaError>(SchemaError::TooDeep),
    decreases MAX_DEPTH + 1 - depth,
{
    if depth <= MAX_DEPTH {
        lemma_self_cycle_at(m, h, depth + 1);
        assert(m.children_stage(h, depth, 0).1 == Err::<(), SchemaError>(SchemaError::TooDeep));
        assert(m.count_stage(h, depth).1 == Err::<(), SchemaError>(SchemaError::TooDeep));
        assert(m.name_stage(h, depth).1 == Err::<(), SchemaError>(SchemaError::TooDeep));
    }
}

impl SchemaMemory {
    /// `b` is the `i`th child of `a`, through a children array the check of
    /// `a` follows.
    pub open spec fn child_edge(self, a: usize, i: int, b: usize) -> bool {
        let header = (self.header)(a);
        &&& 0 <= i < header.n_children
        &&& header.has_children
        &&& (self.child)(a, i as i64) == Some(b)
    }

    /// `b` is a child or the dictionary of `a`.
    pub open spec fn is_edge(self, a: usize, b: usize) -> bool {
        ||| exists|i: int| self.child_edge(a, i, b)
        ||| (self.header)(a).dictionary == Some(b)
    }

    /// The step from the `k`th schema of `p` to the next is an edge.
    pub open spec fn edge_at(self, p: Seq<usize>, k: int) -> bool {
        self.is_edge(p[k], p[k + 1])
    }

    /// `p` is a path of schemas, each a child or the dictionary of the one before.
    pub open spec fn is_path(self, p: Seq<usize>) -> bool {
        &&& p.len() > 0
        &&& forall|k: int| 0 <= k < p.len() - 1 ==> #[trigger] self.edge_at(p, k)
    }
}

/// What a passing check of a schema at `depth` has accepted of it.
proof fn lemma_visit_passes(m: SchemaMemory, h: usize, depth: int)
    requires
        m.visit(h, depth).1 is Ok,
    ensures
        depth <= MAX_DEPTH,
        (m.header)(h).n_children >= 0,
        (m.header)(h).n_children > 0 ==> (m.header)(h).has_children && m.children_stage(
            h,
            depth,
            0,
        ).1 is Ok,
        (m.header)(h).n_children == 0 ==> m.dictionary_stage(h, depth).1 is Ok,
{
    let header = (m.header)(h);
    assert(m.header_stage(h, depth).1 is Ok);
    assert(header.has_release && header.has_format);
    assert(m.format_stage(h, depth).1 is Ok);
    assert(m.name_stage(h, depth).1 is Ok);
    assert(m.count_stage(h, depth).1 is Ok);
}

/// A passing check of the children from `j` on passes each child's check
/// and the dictionary's.
proof fn lemma_children_pass(m: SchemaMemory, h: usize, depth: int, j: int, i: int)
    requires
        m.children_stage(h, depth, j).1 is Ok,
        0 <= j,
    ensures
        depth <= MAX_DEPTH,
        m.dictionary_stage(h, depth).1 is Ok,
        j <= i < (m.header)(h).n_children ==> ((m.child)(h, i as i64) matches Some(c) && m.visit(
            c,
            depth + 1,
        ).1 is Ok),
    decreases (m.header)(h).n_children - j,
{
    if j < (m.header)(h).n_children {
        let c = (m.child)(h, j as i64)->Some_0;
        assert((m.child)(h, j as i64) is Some);
        assert(m.visit(c, depth + 1).1 is Ok);
        assert(m.children_stage(h, depth, j + 1).1 is Ok);
        lemma_children_pass(m, h, depth, j + 1, i);
    }
}

/// A passing check of a schema passes the check of each schema it points to,
/// one level deeper.
proof fn lemma_edge_passes(m: SchemaMemory, a: usize, b: usize, depth: int)
    requires
        m.visit(a, depth).1 is Ok,
        m.is_edge(a, b),
    ensures
        m.visit(b, depth + 1).1 is Ok,
{
    lemma_visit_passes(m, a, depth);
    let header = (m.header)(a);
    if header.n_children > 0 {
        lemma_children_pass(m, a, depth, 0, 0);
    }
    if exists|i: int| m.child_edge(a, i, b) {
        let i = choose|i: int| m.child_edge(a, i, b);
        lemma_children_pass(m, a, depth, 0, i);
    } else {
        assert(m.dictionary_stage(a, depth).1 is Ok);
    }
}

proof fn lemma_path_bounded_from(m: SchemaMemory, p: Seq<usize>, depth: int)
    requires
        m.is_path(p),
        m.visit(p[0], depth).1 is Ok,
    ensures
        p.len() <= MAX_DEPTH + 1 - depth,
    decreases p.len(),
{
    lemma_visit_passes(m, p[0], depth);
    if p.len() > 1 {
        assert(m.edge_at(p, 0));
        lemma_edge_passes(m, p[0], p[1], depth);
        let q = p.drop_first();
        assert forall|k: int| 0 <= k < q.len() - 1 implies #[trigger] m.edge_at(q, k) by {
            assert(m.edge_at(p, k + 1));
        }
        lemma_path_bounded_from(m, q, depth + 1);
    }
}

/// A check that passes bounds every path from its root through children and
/// dictionaries: it holds at most `MAX_DEPTH + 1` schemas.
pub proof fn lemma_passing_check_bounds_paths(m: SchemaMemory, p: Seq<usize>)
    requires
        m.is_path(p),
        m.validate(p[0]).1 is Ok,
    ensures
        p.len() <= MAX_DEPTH + 1,
{
    lemma_path_bounded_from(m, p, 0);
}

proof fn lemma_path_join(m: SchemaMemory, p: Seq<usize>, q: Seq<usize>)
    requires
        m.is_path(p),
        m.is_path(q),
        p.last() == q[0],
    ensures
        m.is_path(p + q.drop_first()),
        (p + q.drop_first())[0] == p[0],
        (p + q.drop_first()).last() == q.last(),
        (p + q.drop_first()).len() == p.len() + q.len() - 1,
{
    let r = p + q.drop_first();
    assert forall|k: int| 0 <= k < r.len() - 1 implies #[trigger] m.edge_at(r, k) by {
        if k < p.len() - 1 {
            assert(m.edge_at(p, k));
            assert(r[k] == p[k] && r[k + 1] == p[k + 1]);
        } else {
            let j = k - (p.len() - 1);
            assert(m.edge_at(q, j));
            assert(r[k] == q[j] && r[k + 1] == q[j + 1]);
        }
    }
    if q.len() > 1 {
        assert(r.last() == q.last());
    }
}

proof fn lemma_unroll(m: SchemaMemory, lead: Seq<usize>, cycle: Seq<usize>, n: nat) -> (p: Seq<
    usize,
>)
    requires
        m.is_path(lead),
        m.is_path(cycle),
        cycle.len() >= 2,
        cycle[0] == cycle.last(),
        lead.last() == cycle[0],
    ensures
        m.is_path(p),
        p[0] == lead[0],
        p.last() == cycle[0],
        p.len() >= lead.len() + n,
    decreases n,
{
    if n == 0 {
        lead
    } else {
        let p = lemma_unroll(m, lead, cycle, (n - 1) as nat);
        lemma_path_join(m, p, cycle);
        p + cycle.drop_first()
    }
}

/// A cycle of children or dictionaries that the root reaches is rejected:
/// the check fails rather than walking it forever.
pub proof fn lemma_reachable_cycle_rejected(m: SchemaMemory, lead: Seq<usize>, cycle: Seq<usize>)
    requires
        m.is_path(lead),
        m.is_path(cycle),
        cycle.len() >= 2,
        cycle[0] == cycle.last(),
        lead.last() == cycle[0],
    ensures
        m.validate(lead[0]).1 is Err,
{
    let p = lemma_unroll(m, lead, cycle, (MAX_DEPTH + 1) as nat);
    if m.validate(lead[0]).1 is Ok {
        lemma_passing_check_bounds_paths(m, p);
    }
}

} // verus!
