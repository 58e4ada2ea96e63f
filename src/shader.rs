use vstd::prelude::*;

verus! {

/// The pipeline stage a shader object is compiled for.
#[derive(Clone, Copy, Debug, PartialEq, Eq, Structural)]
pub enum ShaderKind {
    Vertex,
    Fragment,
}

/// What the driver reported after a compile or a link: success, or failure
/// together with the raw bytes of its information log.
#[derive(Clone, Debug)]
pub enum BuildStatus {
    Success,
    Failure { log: Vec<u8> },
}

/// The text that `String::from_utf8_lossy` makes of a byte sequence.
pub uninterp spec fn utf8_lossy(b: Seq<u8>) -> Seq<char>;

/// Relies on `String::from_utf8_lossy`: its result depends on the bytes
/// alone, and empty input gives an empty string.
#[verifier::external_body]
fn decode_lossy(b: &Vec<u8>) -> (r: String)
    ensures
        r@ == utf8_lossy(b@),
        b@.len() == 0 ==> r@.len() == 0,
{
    String::from_utf8_lossy(b.as_slice()).into_owned()
}

/// `k` is where the text of a NUL-terminated log ends: the first NUL byte,
/// or the end of the buffer where there is none.
pub open spec fn is_text_end(s: Seq<u8>, k: int) -> bool {
    &&& 0 <= k <= s.len()
    &&& forall|j: int| 0 <= j < k ==> s[j] != 0u8
    &&& (k == s.len() || s[k] == 0u8)
}

/// The message that a driver log buffer holds: the bytes before its first
/// NUL, decoded as UTF-8 with invalid sequences replaced.
pub open spec fn log_message_of(s: Seq<u8>, m: Seq<char>) -> bool {
    exists|k: int| is_text_end(s, k) && m == utf8_lossy(s.subrange(0, k))
}

/// A buffer of `len` ASCII spaces, handed to the driver to receive a log.
pub fn log_buffer(len: usize) -> (r: Vec<u8>)
    ensures
        r@ == Seq::new(len as nat, |_i: int| 0x20u8),
{
    let mut buf: Vec<u8> = Vec::with_capacity(len);
    let mut i: usize = 0;
    while i < len
        invariant
            i <= len,
            buf@ == Seq::new(i as nat, |_j: int| 0x20u8),
        decreases len - i,
    {
        buf.push(0x20u8);
        i = i + 1;
        assert(buf@ =~= Seq::new(i as nat, |_j: int| 0x20u8));
    }
    buf
}

/// Turns the log buffer that the driver filled into its message.
pub fn log_message(log: &Vec<u8>) -> (r: String)
    ensures
        log_message_of(log@, r@),
        log@.len() == 0 || log@[0] == 0u8 ==> r@.len() == 0,
{
    let mut text: Vec<u8> = Vec::new();
    let mut i: usize = 0;
    while i < log.len() && log[i] != 0u8
        invariant
            i <= log@.len(),
            text@ == log@.subrange(0, i as int),
            forall|j: int| 0 <= j < i ==> log@[j] != 0u8,
        decreases log@.len() - i,
    {
        text.push(log[i]);
        i = i + 1;
        assert(text@ =~= log@.subrange(0, i as int));
    }
    assert(is_text_end(log@, i as int));
    decode_lossy(&text)
}

/// Why a shader stage did not compile.
#[derive(Clone, Debug)]
pub struct CompileError {
    pub stage: ShaderKind,
    pub message: String,
}

impl CompileError {
    pub fn stage(&self) -> (r: ShaderKind)
        ensures
            r == self.stage,
    {
        self.stage
    }

    pub fn message(&self) -> (r: String)
        ensures
            r@ == self.message@,
    {
        self.message.clone()
    }
}

/// One compiled shader object. Its handle stays valid until it is released.
#[derive(Debug)]
pub struct Shader {
    id: u32,
    kind: ShaderKind,
    released: bool,
}

impl Shader {
    pub closed spec fn spec_id(&self) -> u32 {
        self.id
    }

    pub closed spec fn spec_kind(&self) -> ShaderKind {
        self.kind
    }

    pub closed spec fn is_released(&self) -> bool {
        self.released
    }

    /// The outcome of compiling shader object `id` of stage `kind`, given the
    /// status that the driver reported for it.
    pub fn from_source(id: u32, kind: ShaderKind, status: BuildStatus) -> (r: Result<Shader, CompileError>)
        ensures
            status is Success <==> r is Ok,
            r is Ok ==> r->Ok_0.spec_id() == id && r->Ok_0.spec_kind() == kind
                && !r->Ok_0.is_released(),
            status is Failure ==> r->Err_0.stage == kind
                && log_message_of(status->log@, r->Err_0.message@),
    {
        match status {
            BuildStatus::Success => Ok(Shader { id, kind, released: false }),
            BuildStatus::Failure { log } => Err(CompileError { stage: kind, message: log_message(&log) }),
        }
    }

    /// `from_source` for the vertex stage.
    pub fn from_vert_source(id: u32, status: BuildStatus) -> (r: Result<Shader, CompileError>)
        ensures
            status is Success <==> r is Ok,
            r is Ok ==> r->Ok_0.spec_id() == id && r->Ok_0.spec_kind() == ShaderKind::Vertex
                && !r->Ok_0.is_released(),
            status is Failure ==> r->Err_0.stage == ShaderKind::Vertex
                && log_message_of(status->log@, r->Err_0.message@),
    {
        Shader::from_source(id, ShaderKind::Vertex, status)
    }

    /// `from_source` for the fragment stage.
    pub fn from_frag_source(id: u32, status: BuildStatus) -> (r: Result<Shader, CompileError>)
        ensures
            status is Success <==> r is Ok,
            r is Ok ==> r->Ok_0.spec_id() == id && r->Ok_0.spec_kind() == ShaderKind::Fragment
                && !r->Ok_0.is_released(),
            status is Failure ==> r->Err_0.stage == ShaderKind::Fragment
                && log_message_of(status->log@, r->Err_0.message@),
    {
        Shader::from_source(id, ShaderKind::Fragment, status)
    }

    pub fn id(&self) -> (r: u32)
        ensures
            r == self.spec_id(),
    {
        self.id
    }

    pub fn kind(&self) -> (r: ShaderKind)
        ensures
            r == self.spec_kind(),
    {
        self.kind
    }

    /// Marks the shader released. Returns the handle to delete the first
    /// time, and nothing after that, so the object is deleted once.
    pub fn release(&mut self) -> (r: Option<u32>)
        ensures
            final(self).spec_id() == old(self).spec_id(),
            final(self).spec_kind() == old(self).spec_kind(),
            final(self).is_released(),
            old(self).is_released() ==> r is None,
            !old(self).is_released() ==> r == Some(old(self).spec_id()),
    {
        if self.released {
            None
        } else {
            self.released = true;
            Some(self.id)
        }
    }
}

} // verus!
