//! The dynamic vertex batch: a list of vertices that is rebuilt every
//! frame and flushed into one preallocated device buffer.

use vstd::prelude::*;
use crate::math::Vec3;
use crate::shader::Shader;

verus! {

/// Words (single-precision values) per vertex.
pub const VERTEX_SIZE: i32 = 3;

/// Most vertices that one frame may hold.
pub const MAX_VERT_CNT: i32 = 10000;

/// Most words that one frame may hold.
pub const MAX_BUFF_CAP: i32 = MAX_VERT_CNT * VERTEX_SIZE;

/// Bytes per word.
pub const WORD_BYTES: usize = 4;

/// Bytes per vertex.
pub const VERTEX_BYTES: usize = 12;

/// Bytes of the device buffer, allocated once.
pub const MAX_VBO_SIZE: usize = 120000;

/// One point of a primitive. Its only attribute is a position.
#[derive(Clone, Copy, Debug, PartialEq, Eq, Structural)]
pub struct Vertex {
    pub pos: Vec3,
}

impl Vertex {
    /// The attribute words of the vertex in memory order.
    pub open spec fn words(self) -> Seq<u32> {
        self.pos.words()
    }
}

/// The attribute words of `vertices`, one vertex after the other: word
/// `i` is coordinate `i % 3` of vertex `i / 3`.
pub open spec fn flatten(vertices: Seq<Vertex>) -> Seq<u32> {
    Seq::new((3 * vertices.len()) as nat, |i: int| vertices[i / 3].pos.component(i % 3))
}

/// Where a renderer stands in its life.
#[derive(Clone, Copy, Debug, PartialEq, Eq, Structural)]
pub enum Phase {
    /// Between frames: nothing may be pushed.
    Idle,
    /// Inside a frame, after `begin` and before `end`.
    Recording,
    /// After `delete`: the device objects are gone.
    Released,
}

/// Why a call was turned down.
#[derive(Clone, Copy, Debug, PartialEq, Eq, Structural)]
pub enum RenderError {
    /// A vertex was pushed, or a frame ended, outside a frame.
    NotRecording,
    /// The frame already holds `MAX_VERT_CNT` vertices.
    CapacityExceeded,
    /// The renderer was deleted before.
    AlreadyReleased,
}

impl RenderError {
    /// The wording of each error.
    pub open spec fn text(self) -> Seq<char> {
        match self {
            RenderError::NotRecording => "no frame is open"@,
            RenderError::CapacityExceeded => "vertex capacity exceeded"@,
            RenderError::AlreadyReleased => "renderer already released"@,
        }
    }

    /// The error in words.
    pub fn message(&self) -> (words: String)
        ensures
            words@ == self.text(),
    {
        match self {
            RenderError::NotRecording => "no frame is open".to_owned(),
            RenderError::CapacityExceeded => "vertex capacity exceeded".to_owned(),
            RenderError::AlreadyReleased => "renderer already released".to_owned(),
        }
    }
}

/// How the device reads one attribute out of the vertex buffer.
#[derive(Clone, Copy, Debug, PartialEq, Eq, Structural)]
pub struct AttribLayout {
    /// Shader input location.
    pub index: u32,
    /// Words per vertex that belong to the attribute.
    pub components: i32,
    /// Bytes from one vertex to the next.
    pub stride: i32,
    /// Bytes from the start of a vertex to the attribute.
    pub offset: usize,
}

/// What has to be set up on the device before the first frame.
#[derive(Clone, Copy, Debug, PartialEq, Eq, Structural)]
pub struct Setup {
    /// Whether depth testing is switched on.
    pub depth_test: bool,
    /// Bytes to allocate for the vertex buffer, uninitialised.
    pub buffer_bytes: usize,
    /// The one vertex attribute.
    pub layout: AttribLayout,
}

/// A request to clear the render target.
#[derive(Clone, Copy, Debug, PartialEq, Eq, Structural)]
pub struct ClearCommand {
    /// Bit patterns of the red, green, blue and alpha channels.
    pub red: u32,
    pub green: u32,
    pub blue: u32,
    pub alpha: u32,
    /// Whether the colour target is cleared.
    pub color: bool,
    /// Whether the depth target is cleared.
    pub depth: bool,
}

/// One frame's upload and draw call.
#[derive(Debug)]
pub struct Submission {
    /// The vertex buffer to update.
    pub buffer: u32,
    /// Byte offset in the buffer at which the update starts.
    pub offset: usize,
    /// The words to copy into the buffer.
    pub words: Vec<u32>,
    /// Bytes that the update covers.
    pub byte_len: usize,
    /// The vertex array to draw from.
    pub array: u32,
    /// First vertex of the draw call.
    pub first: i32,
    /// Vertex count of the draw call.
    pub count: i32,
}

/// The device objects to release when a renderer is deleted.
#[derive(Clone, Copy, Debug, PartialEq, Eq, Structural)]
pub struct Release {
    pub array: u32,
    pub shader: Shader,
}

/// The attribute layout of `Vertex`: the position, at location zero,
/// tightly packed.
pub open spec fn vertex_layout() -> AttribLayout {
    AttribLayout { index: 0, components: 3, stride: 12, offset: 0 }
}

/// A batch of vertices with the handles of the device objects it is drawn
/// with.
#[derive(Debug)]
pub struct Renderer {
    vao: u32,
    vbo: u32,
    buffer: Vec<Vertex>,
    buff_idx: i32,
    shader: Shader,
    phase: Phase,
}

impl View for Renderer {
    type V = Seq<Vertex>;

    /// The vertices of the current frame in push order.
    closed spec fn view(&self) -> Seq<Vertex> {
        self.buffer@
    }
}

impl Renderer {
    /// The frame fits the device buffer, and the counter has grown by
    /// `VERTEX_SIZE` with every vertex in it.
    pub closed spec fn wf(&self) -> bool {
        &&& self.buffer@.len() <= MAX_VERT_CNT
        &&& self.buff_idx == VERTEX_SIZE * self.buffer@.len()
    }

    /// The counter that `end` hands to the draw call.
    pub closed spec fn submitted(&self) -> int {
        self.buff_idx as int
    }

    pub closed spec fn phase(&self) -> Phase {
        self.phase
    }

    /// Handle of the vertex array object.
    pub closed spec fn array(&self) -> u32 {
        self.vao
    }

    /// Handle of the vertex buffer.
    pub closed spec fn vertex_buffer(&self) -> u32 {
        self.vbo
    }

    pub closed spec fn shader(&self) -> Shader {
        self.shader
    }

    /// `self` and `other` name the same device objects.
    pub open spec fn same_handles(&self, other: &Renderer) -> bool {
        &&& self.array() == other.array()
        &&& self.vertex_buffer() == other.vertex_buffer()
        &&& self.shader() == other.shader()
    }

    /// The device state a renderer relies on: depth testing, a buffer of
    /// `MAX_VBO_SIZE` bytes and the attribute layout of `Vertex`.
    pub fn setup() -> (plan: Setup)
        ensures
            plan == (Setup {
                depth_test: true,
                buffer_bytes: MAX_VBO_SIZE,
                layout: vertex_layout(),
            }),
    {
        Setup {
            depth_test: true,
            buffer_bytes: MAX_VBO_SIZE,
            layout: AttribLayout { index: 0, components: 3, stride: 12, offset: 0 },
        }
    }

    /// Makes a renderer of the vertex array `vao`, the vertex buffer `vbo`
    /// and the outcome of building the default shader. A failed build is
    /// handed on as it is; otherwise the renderer is idle and empty.
    pub fn new(vao: u32, vbo: u32, shader: Result<Shader, String>) -> (made: Result<
        Renderer,
        String,
    >)
        ensures
            match shader {
                Ok(s) => {
                    &&& made is Ok
                    &&& made->Ok_0.wf()
                    &&& made->Ok_0@ == Seq::<Vertex>::empty()
                    &&& made->Ok_0.submitted() == 0
                    &&& made->Ok_0.phase() == Phase::Idle
                    &&& made->Ok_0.array() == vao
                    &&& made->Ok_0.vertex_buffer() == vbo
                    &&& made->Ok_0.shader() == s
                },
                Err(e) => made == Err::<Renderer, String>(e),
            },
    {
        match shader {
            Ok(s) => Ok(
                Renderer {
                    vao,
                    vbo,
                    buffer: Vec::new(),
                    buff_idx: 0,
                    shader: s,
                    phase: Phase::Idle,
                },
            ),
            Err(e) => Err(e),
        }
    }

    /// Clears the colour and the depth target to the colour whose
    /// channels have the given bit patterns.
    pub fn clear(&self, r: u32, g: u32, b: u32, a: u32) -> (command: ClearCommand)
        ensures
            command == (ClearCommand {
                red: r,
                green: g,
                blue: b,
                alpha: a,
                color: true,
                depth: true,
            }),
    {
        ClearCommand { red: r, green: g, blue: b, alpha: a, color: true, depth: true }
    }

    /// Opens a frame: the list is emptied, the counter set to zero, and
    /// the program to bind is returned. A deleted renderer is left as it
    /// is.
    pub fn begin(&mut self) -> (bound: Result<u32, RenderError>)
        requires
            old(self).wf(),
        ensures
            final(self).wf(),
            old(self).phase() == Phase::Released ==> {
                &&& bound == Err::<u32, RenderError>(RenderError::AlreadyReleased)
                &&& *final(self) == *old(self)
            },
            old(self).phase() != Phase::Released ==> {
                &&& bound == Ok::<u32, RenderError>(old(self).shader().program)
                &&& final(self)@ == Seq::<Vertex>::empty()
                &&& final(self).submitted() == 0
                &&& final(self).phase() == Phase::Recording
                &&& final(self).same_handles(old(self))
            },
    {
        match self.phase {
            Phase::Released => Err(RenderError::AlreadyReleased),
            _ => {
                self.buffer.clear();
                self.buff_idx = 0;
                self.phase = Phase::Recording;
                Ok(self.shader.bind())
            },
        }
    }

    /// Appends `v` to the frame and adds `VERTEX_SIZE` to the counter.
    /// Outside a frame, or with `MAX_VERT_CNT` vertices already in it,
    /// nothing changes and the error says which.
    pub fn push_vertex(&mut self, v: Vertex) -> (pushed: Result<(), RenderError>)
        requires
            old(self).wf(),
        ensures
            final(self).wf(),
            old(self).phase() != Phase::Recording ==> {
                &&& pushed == Err::<(), RenderError>(RenderError::NotRecording)
                &&& *final(self) == *old(self)
            },
            old(self).phase() == Phase::Recording && old(self)@.len() >= MAX_VERT_CNT ==> {
                &&& pushed == Err::<(), RenderError>(RenderError::CapacityExceeded)
                &&& *final(self) == *old(self)
            },
            old(self).phase() == Phase::Recording && old(self)@.len() < MAX_VERT_CNT ==> {
                &&& pushed == Ok::<(), RenderError>(())
                &&& final(self)@ == old(self)@.push(v)
                &&& final(self).submitted() == old(self).submitted() + VERTEX_SIZE
                &&& final(self).phase() == Phase::Recording
                &&& final(self).same_handles(old(self))
            },
    {
        match self.phase {
            Phase::Recording => {},
            _ => {
                return Err(RenderError::NotRecording);
            },
        }
        if self.buffer.len() >= MAX_VERT_CNT as usize {
            return Err(RenderError::CapacityExceeded);
        }
        self.buffer.push(v);
        self.buff_idx = self.buff_idx + VERTEX_SIZE;
        Ok(())
    }

    /// Closes the frame and says what to send: the frame's words, to be
    /// written at offset zero of the vertex buffer, and a draw call whose
    /// vertex count is the counter. The list stays until the next
    /// `begin`. Outside a frame nothing changes.
    pub fn end(&mut self) -> (sent: Result<Submission, RenderError>)
        requires
            old(self).wf(),
        ensures
            final(self).wf(),
            old(self).phase() != Phase::Recording ==> {
                &&& sent is Err
                &&& sent->Err_0 == RenderError::NotRecording
                &&& *final(self) == *old(self)
            },
            old(self).phase() == Phase::Recording ==> {
                &&& sent is Ok
                &&& sent->Ok_0.buffer == old(self).vertex_buffer()
                &&& sent->Ok_0.offset == 0
                &&& sent->Ok_0.words@ == flatten(old(self)@)
                &&& sent->Ok_0.byte_len == VERTEX_BYTES * old(self)@.len()
                &&& sent->Ok_0.offset + sent->Ok_0.byte_len <= MAX_VBO_SIZE
                &&& sent->Ok_0.array == old(self).array()
                &&& sent->Ok_0.first == 0
                &&& sent->Ok_0.count == old(self).submitted()
                &&& sent->Ok_0.count == VERTEX_SIZE * old(self)@.len()
                &&& final(self)@ == old(self)@
                &&& final(self).submitted() == old(self).submitted()
                &&& final(self).phase() == Phase::Idle
                &&& final(self).same_handles(old(self))
            },
    {
        match self.phase {
            Phase::Recording => {},
            _ => {
                return Err(RenderError::NotRecording);
            },
        }
        let n: usize = self.buffer.len();
        let mut words: Vec<u32> = Vec::new();
        let mut i: usize = 0;
        while i < n
            invariant
                *self == *old(self),
                n == self.buffer@.len(),
                i <= n,
                words@ == flatten(self.buffer@.take(i as int)),
            decreases n - i,
        {
            let p = self.buffer[i].pos;
            proof {
                lemma_flatten_push(self.buffer@.take(i as int), self.buffer@[i as int]);
                assert(self.buffer@.take(i as int).push(self.buffer@[i as int])
                    =~= self.buffer@.take(i + 1));
            }
            words.push(p.x);
            words.push(p.y);
            words.push(p.z);
            assert(words@ =~= flatten(self.buffer@.take(i as int)) + self.buffer@[i as int].words());
            i = i + 1;
        }
        assert(self.buffer@.take(n as int) =~= self.buffer@);
        self.phase = Phase::Idle;
        Ok(
            Submission {
                buffer: self.vbo,
                offset: 0,
                words,
                byte_len: n * VERTEX_BYTES,
                array: self.vao,
                first: 0,
                count: self.buff_idx,
            },
        )
    }

    /// Gives up the device objects: the vertex array and the shader are
    /// to be released. Only the first call does so.
    pub fn delete(&mut self) -> (released: Result<Release, RenderError>)
        requires
            old(self).wf(),
        ensures
            final(self).wf(),
            old(self).phase() == Phase::Released ==> {
                &&& released == Err::<Release, RenderError>(RenderError::AlreadyReleased)
                &&& *final(self) == *old(self)
            },
            old(self).phase() != Phase::Released ==> {
                &&& released == Ok::<Release, RenderError>(
                    Release { array: old(self).array(), shader: old(self).shader() },
                )
                &&& final(self).phase() == Phase::Released
                &&& final(self)@ == old(self)@
                &&& final(self).submitted() == old(self).submitted()
                &&& final(self).same_handles(old(self))
            },
    {
        match self.phase {
            Phase::Released => Err(RenderError::AlreadyReleased),
            _ => {
                self.phase = Phase::Released;
                Ok(Release { array: self.vao, shader: self.shader })
            },
        }
    }

    /// One whole frame: `begin`, a `push_vertex` for each of `vertices`
    /// in order, `end`. With at most `MAX_VERT_CNT` vertices the frame
    /// is sent. With more, the push that finds the frame full fails, and
    /// the frame stays open with the vertices that fitted.
    pub fn submit_frame(&mut self, vertices: &Vec<Vertex>) -> (sent: Result<
        Submission,
        RenderError,
    >)
        requires
            old(self).wf(),
        ensures
            final(self).wf(),
            final(self).same_handles(old(self)),
            old(self).phase() == Phase::Released ==> {
                &&& sent is Err
                &&& sent->Err_0 == RenderError::AlreadyReleased
                &&& *final(self) == *old(self)
            },
            old(self).phase() != Phase::Released && vertices@.len() > MAX_VERT_CNT ==> {
                &&& sent is Err
                &&& sent->Err_0 == RenderError::CapacityExceeded
                &&& final(self)@ == vertices@.take(MAX_VERT_CNT as int)
                &&& final(self).phase() == Phase::Recording
            },
            old(self).phase() != Phase::Released && vertices@.len() <= MAX_VERT_CNT ==> {
                &&& sent is Ok
                &&& sent->Ok_0.buffer == old(self).vertex_buffer()
                &&& sent->Ok_0.offset == 0
                &&& sent->Ok_0.words@ == flatten(vertices@)
                &&& sent->Ok_0.byte_len == VERTEX_BYTES * vertices@.len()
                &&& sent->Ok_0.array == old(self).array()
                &&& sent->Ok_0.first == 0
                &&& sent->Ok_0.count == VERTEX_SIZE * vertices@.len()
                &&& final(self)@ == vertices@
                &&& final(self).phase() == Phase::Idle
            },
    {
        match self.begin() {
            Ok(_) => {},
            Err(e) => {
                return Err(e);
            },
        }
        let n: usize = vertices.len();
        let mut i: usize = 0;
        while i < n
            invariant
                n == vertices@.len(),
                i <= n,
                i <= MAX_VERT_CNT,
                old(self).phase() != Phase::Released,
                self.wf(),
                self.phase() == Phase::Recording,
                self.same_handles(old(self)),
                self@ == vertices@.take(i as int),
            decreases n - i,
        {
            match self.push_vertex(vertices[i]) {
                Ok(_) => {},
                Err(e) => {
                    return Err(e);
                },
            }
            assert(vertices@.take(i as int).push(vertices@[i as int]) =~= vertices@.take(i + 1));
            i = i + 1;
        }
        assert(vertices@.take(n as int) =~= vertices@);
        self.end()
    }

    /// The vertices of the current frame in push order.
    pub fn buffer(&self) -> (vertices: &Vec<Vertex>)
        ensures
            vertices@ == self@,
    {
        &self.buffer
    }

    /// The counter as it stands.
    pub fn submitted_count(&self) -> (count: i32)
        ensures
            count == self.submitted(),
    {
        self.buff_idx
    }

    pub fn current_phase(&self) -> (phase: Phase)
        ensures
            phase == self.phase(),
    {
        self.phase
    }
}

/// Flattening is concatenation in push order: the words of a list with
/// one more vertex are the words of the list, then the three words of
/// that vertex.
pub proof fn lemma_flatten_push(vertices: Seq<Vertex>, v: Vertex)
    ensures
        flatten(vertices.push(v)) == flatten(vertices) + v.words(),
{
    assert(flatten(vertices.push(v)) =~= flatten(vertices) + v.words());
}

/// The empty list flattens to no words.
pub proof fn lemma_flatten_empty()
    ensures
        flatten(Seq::<Vertex>::empty()) == Seq::<u32>::empty(),
{
    assert(flatten(Seq::<Vertex>::empty()) =~= Seq::<u32>::empty());
}

/// In a well-formed renderer the counter is `VERTEX_SIZE` times the
/// number of vertices, and neither exceeds what the device buffer holds.
pub proof fn lemma_counter_tracks_vertices(r: &Renderer)
    requires
        r.wf(),
    ensures
        r.submitted() == VERTEX_SIZE * r@.len(),
        r@.len() <= MAX_VERT_CNT,
        r.submitted() <= MAX_BUFF_CAP,
        VERTEX_BYTES * r@.len() <= MAX_VBO_SIZE,
{
}

/// The attribute layout describes `Vertex` as it is: as many components
/// as a vertex has words, which is `VERTEX_SIZE`, and a stride of one
/// whole vertex.
pub proof fn lemma_layout_matches_vertex(v: Vertex)
    ensures
        vertex_layout().components == VERTEX_SIZE,
        v.words().len() == VERTEX_SIZE,
        flatten(seq![v]) == v.words(),
        vertex_layout().stride == VERTEX_SIZE * WORD_BYTES,
        vertex_layout().stride == VERTEX_BYTES,
        vertex_layout().offset == 0,
{
    assert(flatten(seq![v]) =~= v.words());
}

/// The device buffer holds exactly `MAX_VERT_CNT` vertices, which are
/// `MAX_BUFF_CAP` words.
pub proof fn lemma_buffer_holds_capacity()
    ensures
        MAX_BUFF_CAP == MAX_VERT_CNT * VERTEX_SIZE,
        MAX_VBO_SIZE == MAX_BUFF_CAP * WORD_BYTES,
        MAX_VBO_SIZE == MAX_VERT_CNT * VERTEX_BYTES,
{
}

} // verus!
