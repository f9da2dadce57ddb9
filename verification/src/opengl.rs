//! The layer over a context of the OpenGL 4.3 core profile: the pools of
//! native objects, the record of what is bound, and the context that client
//! code works with.

use crate::buffer::FlatData;
use crate::error::{Error, Failure};
use crate::gen_vec::{stored, Arena, GenVec, Handle};
use crate::math::URect;
use crate::native::{to_i32, Command, Trace, DEBUG_OUTPUT, SCISSOR_TEST};
use crate::{
    handle, Buffer, BufferHandle, Primitive, RenderTarget, RenderTargetHandle, ShaderHandle,
    StageHandle, VertexLayout, VertexLayoutHandle,
};
use diagnostics::{decimal, to_decimal, Diagnostics, Log, Record, LOG_CAPACITY};
use report::BuildReport;
use vstd::prelude::*;
use vstd::string::StringExecFns;

pub mod buffer;
pub mod diagnostics;
pub mod render_target;
pub mod report;
pub mod shader;
pub mod stage;
pub mod vertex_layout;

verus! {

/// The pools of native objects, one for each kind of resource.
pub struct Resources {
    pub buffers: GenVec<handle::Buffer, buffer::Native>,
    pub layouts: GenVec<handle::VertexLayout, vertex_layout::Native>,
    pub stages: GenVec<handle::Stage, stage::Native>,
    pub shaders: GenVec<handle::Shader, shader::Native>,
    pub render_targets: GenVec<handle::RenderTarget, render_target::Native>,
}

/// The number of resources of each kind that a context has room for before
/// its pools grow.
pub const POOL_CAPACITY: usize = 10;

/// What releasing every native object of the pools asks for: the buffers are
/// deleted, then the layouts, the stages and the programs, each kind in the
/// order of its slots. A render target holds nothing to release.
pub open spec fn releases(
    buffers: Seq<buffer::Native>,
    layouts: Seq<vertex_layout::Native>,
    stages: Seq<stage::Native>,
    shaders: Seq<shader::Native>,
) -> Seq<Command> {
    buffers.map_values(|native: buffer::Native| native.release()) + layouts.map_values(
        |native: vertex_layout::Native| native.release(),
    ) + stages.map_values(|native: stage::Native| native.release()) + shaders.map_values(
        |native: shader::Native| native.release(),
    )
}

impl Resources {
    pub open spec fn well_formed(&self) -> bool {
        &&& self.buffers.well_formed()
        &&& self.layouts.well_formed()
        &&& self.stages.well_formed()
        &&& self.shaders.well_formed()
        &&& self.render_targets.well_formed()
    }

    /// No pool holds anything, and no handle has been issued.
    pub open spec fn is_empty(&self) -> bool {
        &&& self.buffers@ == Arena::<buffer::Native>::empty()
        &&& self.layouts@ == Arena::<vertex_layout::Native>::empty()
        &&& self.stages@ == Arena::<stage::Native>::empty()
        &&& self.shaders@ == Arena::<shader::Native>::empty()
        &&& self.render_targets@ == Arena::<render_target::Native>::empty()
    }

    /// What releasing every native object of the pools asks for.
    pub open spec fn releases(&self) -> Seq<Command> {
        releases(
            stored(self.buffers@.slots),
            stored(self.layouts@.slots),
            stored(self.stages@.slots),
            stored(self.shaders@.slots),
        )
    }

    pub fn with_capacity(capacity: usize) -> (resources: Self)
        ensures
            resources.well_formed(),
            resources.is_empty(),
    {
        Self {
            buffers: GenVec::with_capacity(capacity),
            layouts: GenVec::with_capacity(capacity),
            stages: GenVec::with_capacity(capacity),
            shaders: GenVec::with_capacity(capacity),
            render_targets: GenVec::with_capacity(capacity),
        }
    }

    /// Empties the pools and releases every native object they hold. The
    /// handles that were issued are void: the pools start over.
    pub fn clear(&mut self, commands: &mut Vec<Command>)
        ensures
            final(self).well_formed(),
            final(self).is_empty(),
            final(commands)@ == old(commands)@ + old(self).releases(),
    {
        let mut cleared = Self::with_capacity(POOL_CAPACITY);
        core::mem::swap(self, &mut cleared);
        let Resources { buffers, layouts, stages, shaders, render_targets } = cleared;
        let buffers = buffers.into_values();
        let ghost first = buffers@.map_values(|native: buffer::Native| native.release());
        let mut at: usize = 0;
        assert(commands@ =~= old(commands)@ + first.take(0));
        while at < buffers.len()
            invariant
                at <= buffers@.len(),
                first == buffers@.map_values(|native: buffer::Native| native.release()),
                commands@ == old(commands)@ + first.take(at as int),
            decreases buffers@.len() - at,
        {
            commands.push(Command::DeleteBuffer { buffer: buffers[at].native_id() });
            assert(commands@ =~= old(commands)@ + first.take(at + 1));
            at = at + 1;
        }
        assert(first.take(at as int) =~= first);
        let layouts = layouts.into_values();
        let ghost second = layouts@.map_values(|native: vertex_layout::Native| native.release());
        let mut at: usize = 0;
        assert(commands@ =~= old(commands)@ + first + second.take(0));
        while at < layouts.len()
            invariant
                at <= layouts@.len(),
                second == layouts@.map_values(|native: vertex_layout::Native| native.release()),
                commands@ == old(commands)@ + first + second.take(at as int),
            decreases layouts@.len() - at,
        {
            commands.push(Command::DeleteVertexArray { array: layouts[at].native_id() });
            assert(commands@ =~= old(commands)@ + first + second.take(at + 1));
            at = at + 1;
        }
        assert(second.take(at as int) =~= second);
        let stages = stages.into_values();
        let ghost third = stages@.map_values(|native: stage::Native| native.release());
        let mut at: usize = 0;
        assert(commands@ =~= old(commands)@ + first + second + third.take(0));
        while at < stages.len()
            invariant
                at <= stages@.len(),
                third == stages@.map_values(|native: stage::Native| native.release()),
                commands@ == old(commands)@ + first + second + third.take(at as int),
            decreases stages@.len() - at,
        {
            commands.push(Command::DeleteShader { shader: stages[at].native_id() });
            assert(commands@ =~= old(commands)@ + first + second + third.take(at + 1));
            at = at + 1;
        }
        assert(third.take(at as int) =~= third);
        let shaders = shaders.into_values();
        let ghost fourth = shaders@.map_values(|native: shader::Native| native.release());
        let mut at: usize = 0;
        assert(commands@ =~= old(commands)@ + first + second + third + fourth.take(0));
        while at < shaders.len()
            invariant
                at <= shaders@.len(),
                fourth == shaders@.map_values(|native: shader::Native| native.release()),
                commands@ == old(commands)@ + first + second + third + fourth.take(at as int),
            decreases shaders@.len() - at,
        {
            commands.push(Command::DeleteProgram { program: shaders[at].native_id() });
            assert(commands@ =~= old(commands)@ + first + second + third + fourth.take(at + 1));
            at = at + 1;
        }
        assert(fourth.take(at as int) =~= fourth);
        assert(commands@ =~= old(commands)@ + old(self).releases());
    }
}

/// What the native context has bound: the layout, the program and the
/// render target that were last asked for.
pub struct State {
    pub bound_layout: Option<VertexLayoutHandle>,
    pub bound_shader: Option<ShaderHandle>,
    pub bound_render_target: Option<RenderTargetHandle>,
}

impl Default for State {
    fn default() -> (state: Self)
        ensures
            state == State::unbound(),
    {
        Self { bound_layout: None, bound_shader: None, bound_render_target: None }
    }
}

/// Whether the handle is the one on record.
fn is_bound<K>(bound: &Option<Handle<K>>, handle: Handle<K>) -> (hit: bool)
    ensures
        hit == (*bound == Some(handle)),
{
    match bound {
        Some(current) => {
            proof {
                current.lemma_view_injective(handle);
            }
            *current == handle
        },
        None => false,
    }
}

/// What asking for a render target asks of the native API. Nothing, where
/// the target is the one on record. Otherwise the target has to be in the
/// pool, and is made current.
pub open spec fn render_target_binding(
    bound: Option<RenderTargetHandle>,
    pool: Arena<render_target::Native>,
    target: RenderTargetHandle,
) -> Trace {
    if bound == Some(target) {
        Trace::nothing()
    } else {
        match pool.get(target@) {
            Some(native) => render_target::binding(native.viewport()),
            None => Trace::failed(Failure::ResourceNotFound),
        }
    }
}

/// What asking for a layout asks of the native API. Nothing, where the
/// layout is the one on record. Otherwise the layout has to be in the pool,
/// and is made current.
pub open spec fn layout_binding(
    bound: Option<VertexLayoutHandle>,
    pool: Arena<vertex_layout::Native>,
    layout: VertexLayoutHandle,
) -> Trace {
    if bound == Some(layout) {
        Trace::nothing()
    } else {
        match pool.get(layout@) {
            Some(native) => Trace::done(seq![Command::BindVertexArray { array: native.id() }]),
            None => Trace::failed(Failure::ResourceNotFound),
        }
    }
}

/// What asking for a program asks of the native API. Nothing, where the
/// program is the one on record. Otherwise the program has to be in the
/// pool, and is made current.
pub open spec fn shader_binding(
    bound: Option<ShaderHandle>,
    pool: Arena<shader::Native>,
    shader: ShaderHandle,
) -> Trace {
    if bound == Some(shader) {
        Trace::nothing()
    } else {
        match pool.get(shader@) {
            Some(native) => Trace::done(seq![Command::UseProgram { program: native.id() }]),
            None => Trace::failed(Failure::ResourceNotFound),
        }
    }
}

impl State {
    /// Nothing is bound.
    pub open spec fn unbound() -> State {
        State { bound_layout: None, bound_shader: None, bound_render_target: None }
    }

    /// What binding for a draw asks of the native API: the render target,
    /// then the layout, then the program, up to the first that fails.
    pub open spec fn draw_state_binding(
        self,
        resources: &Resources,
        render_target: RenderTargetHandle,
        layout: VertexLayoutHandle,
        shader: ShaderHandle,
    ) -> Trace {
        render_target_binding(
            self.bound_render_target,
            resources.render_targets@,
            render_target,
        ).and_then(layout_binding(self.bound_layout, resources.layouts@, layout)).and_then(
            shader_binding(self.bound_shader, resources.shaders@, shader),
        )
    }

    /// The record after binding for a draw. Each handle that was asked for
    /// is on record from then on, whether it could be bound or not; a handle
    /// that was not reached, because an earlier one failed, is not.
    pub open spec fn after_draw_state(
        self,
        resources: &Resources,
        render_target: RenderTargetHandle,
        layout: VertexLayoutHandle,
        shader: ShaderHandle,
    ) -> State {
        let first = render_target_binding(
            self.bound_render_target,
            resources.render_targets@,
            render_target,
        );
        let second = first.and_then(layout_binding(self.bound_layout, resources.layouts@, layout));
        State {
            bound_render_target: Some(render_target),
            bound_layout: if first.failure is None {
                Some(layout)
            } else {
                self.bound_layout
            },
            bound_shader: if second.failure is None {
                Some(shader)
            } else {
                self.bound_shader
            },
        }
    }

    /// Forgets what is bound.
    pub fn reset(&mut self)
        ensures
            *final(self) == State::unbound(),
    {
        *self = Self::default();
    }

    /// Makes the render target current, unless it is the one on record. The
    /// handle is on record afterwards, whether it could be bound or not.
    pub fn bind_render_target(
        &mut self,
        resources: &mut Resources,
        render_target: RenderTargetHandle,
        commands: &mut Vec<Command>,
    ) -> (done: Result<(), Error>)
        ensures
            *final(resources) == *old(resources),
            *final(self) == (State { bound_render_target: Some(render_target), ..*old(self) }),
            render_target_binding(
                old(self).bound_render_target,
                old(resources).render_targets@,
                render_target,
            ).matches(old(commands)@, final(commands)@, done),
    {
        proof {
            assert(old(commands)@ + Seq::<Command>::empty() =~= old(commands)@);
        }
        if !is_bound(&self.bound_render_target, render_target) {
            self.bound_render_target = Some(render_target);
            if let Some(native) = resources.render_targets.get(render_target) {
                native.bind(commands)?;
            } else {
                return Err(Error::ResourceNotFound);
            }
        }
        Ok(())
    }

    /// Makes the program current, unless it is the one on record. The handle
    /// is on record afterwards, whether it could be bound or not.
    pub fn bind_shader(
        &mut self,
        resources: &mut Resources,
        shader: ShaderHandle,
        commands: &mut Vec<Command>,
    ) -> (done: Result<(), Error>)
        ensures
            *final(resources) == *old(resources),
            *final(self) == (State { bound_shader: Some(shader), ..*old(self) }),
            shader_binding(old(self).bound_shader, old(resources).shaders@, shader).matches(
                old(commands)@,
                final(commands)@,
                done,
            ),
    {
        proof {
            assert(old(commands)@ + Seq::<Command>::empty() =~= old(commands)@);
        }
        if !is_bound(&self.bound_shader, shader) {
            self.bound_shader = Some(shader);
            if let Some(native) = resources.shaders.get(shader) {
                commands.push(Command::UseProgram { program: native.native_id() });
                assert(commands@ =~= old(commands)@ + seq![
                    Command::UseProgram { program: native.id() },
                ]);
            } else {
                return Err(Error::ResourceNotFound);
            }
        }
        Ok(())
    }

    /// Makes the layout current, unless it is the one on record. The handle
    /// is on record afterwards, whether it could be bound or not.
    pub fn bind_layout(
        &mut self,
        resources: &mut Resources,
        layout: VertexLayoutHandle,
        commands: &mut Vec<Command>,
    ) -> (done: Result<(), Error>)
        ensures
            *final(resources) == *old(resources),
            *final(self) == (State { bound_layout: Some(layout), ..*old(self) }),
            layout_binding(old(self).bound_layout, old(resources).layouts@, layout).matches(
                old(commands)@,
                final(commands)@,
                done,
            ),
    {
        proof {
            assert(old(commands)@ + Seq::<Command>::empty() =~= old(commands)@);
        }
        if !is_bound(&self.bound_layout, layout) {
            self.bound_layout = Some(layout);
            if let Some(native) = resources.layouts.get(layout) {
                commands.push(Command::BindVertexArray { array: native.native_id() });
                assert(commands@ =~= old(commands)@ + seq![
                    Command::BindVertexArray { array: native.id() },
                ]);
            } else {
                return Err(Error::ResourceNotFound);
            }
        }
        Ok(())
    }

    /// Binds what a draw needs: the render target, then the layout, then the
    /// program. The first that fails ends the binding.
    pub fn bind_draw_state(
        &mut self,
        resources: &mut Resources,
        render_target: RenderTargetHandle,
        layout: VertexLayoutHandle,
        shader: ShaderHandle,
        commands: &mut Vec<Command>,
    ) -> (done: Result<(), Error>)
        ensures
            *final(resources) == *old(resources),
            *final(self) == old(self).after_draw_state(
                &*old(resources),
                render_target,
                layout,
                shader,
            ),
            old(self).draw_state_binding(&*old(resources), render_target, layout, shader).matches(
                old(commands)@,
                final(commands)@,
                done,
            ),
    {
        let ghost first = render_target_binding(
            self.bound_render_target,
            resources.render_targets@,
            render_target,
        );
        let ghost second = layout_binding(self.bound_layout, resources.layouts@, layout);
        let ghost third = shader_binding(self.bound_shader, resources.shaders@, shader);
        self.bind_render_target(resources, render_target, commands)?;
        self.bind_layout(resources, layout, commands)?;
        proof {
            assert(commands@ =~= old(commands)@ + first.and_then(second).commands);
        }
        self.bind_shader(resources, shader, commands)?;
        proof {
            assert(commands@ =~= old(commands)@ + first.and_then(second).and_then(
                third,
            ).commands);
        }
        Ok(())
    }
}


/// What the native context says of itself when the layer is set up: its
/// version, and the rectangle that it draws onto.
#[derive(Copy, Clone, Debug)]
pub struct Probe {
    pub major: i32,
    pub minor: i32,
    pub viewport: [i32; 4],
}

/// The version is one that the layer works with: 4.3 or later.
pub open spec fn supported(major: i32, minor: i32) -> bool {
    major > 4 || (major == 4 && minor >= 3)
}

/// The number in decimal digits, with a minus sign where it is negative.
pub open spec fn signed_decimal(value: int) -> Seq<char> {
    if value < 0 {
        "-"@ + decimal((-value) as nat)
    } else {
        decimal(value as nat)
    }
}

/// The number in decimal digits, with a minus sign where it is negative.
pub fn to_signed_decimal(value: i32) -> (text: String)
    ensures
        text@ == signed_decimal(value as int),
{
    if value < 0 {
        let magnitude: i64 = -(value as i64);
        String::from_str("-").concat(to_decimal(magnitude as u32).as_str())
    } else {
        to_decimal(value as u32)
    }
}

/// Why no context can be made for what the native context says of itself,
/// if none can. Where the entry points of the native API could not be
/// loaded it says nothing.
pub open spec fn rejection(probe: Option<Probe>) -> Option<Failure> {
    match probe {
        None => Some(Failure::InvalidContext("failed to load OpenGL fn pointers"@)),
        Some(probe) => if !supported(probe.major, probe.minor) {
            Some(
                Failure::InvalidContext(
                    "version 4.3 required, received "@ + signed_decimal(probe.major as int) + "."@
                        + signed_decimal(probe.minor as int),
                ),
            )
        } else if probe.viewport@[0] < 0 {
            Some(Failure::ConversionFailed("viewport x to u32"@))
        } else if probe.viewport@[1] < 0 {
            Some(Failure::ConversionFailed("viewport y to u32"@))
        } else if probe.viewport@[2] < 0 {
            Some(Failure::ConversionFailed("viewport width to u32"@))
        } else if probe.viewport@[3] < 0 {
            Some(Failure::ConversionFailed("viewport height to u32"@))
        } else {
            None
        },
    }
}

/// What setting up a context asks of the native API: the messages of the
/// driver are switched on and sent to the log, and drawing is clipped to
/// the scissor rectangle.
pub open spec fn setup() -> Seq<Command> {
    seq![
        Command::Enable { capability: DEBUG_OUTPUT },
        Command::DebugMessageCallback,
        Command::Enable { capability: SCISSOR_TEST },
    ]
}

/// What a draw asks of the native API: what it needs is bound, and the
/// vertices from `start` on are submitted, `count` of them, unless one of
/// the two numbers does not fit the native call.
pub open spec fn drawing(
    state: State,
    resources: &Resources,
    render_target: RenderTargetHandle,
    primitive: Primitive,
    shader: ShaderHandle,
    layout: VertexLayoutHandle,
    start: usize,
    count: usize,
) -> Trace {
    state.draw_state_binding(resources, render_target, layout, shader).and_then(
        if start > i32::MAX {
            Trace::unfit("start wraps around i32"@)
        } else if count > i32::MAX {
            Trace::unfit("count wraps around i32"@)
        } else {
            Trace::done(
                seq![
                    Command::DrawArrays {
                        mode: crate::native::primitive_mode(primitive),
                        first: start as i32,
                        count: count as i32,
                    },
                ],
            )
        },
    )
}

/// The non-negative number as an unsigned one, or the error that names what
/// it stands for.
fn to_unsigned(value: i32, what: &'static str) -> (converted: Result<u32, Error>)
    ensures
        value >= 0 ==> converted == Ok::<u32, Error>(value as u32),
        value < 0 ==> (converted matches Err(error) && error@ == Failure::ConversionFailed(what@)),
{
    if value >= 0 {
        Ok(value as u32)
    } else {
        Err(Error::ConversionFailed(what))
    }
}

/// A graphics context: the registry of its resources, the record of what is
/// bound, the log of what the driver reports, and the queue of the native
/// calls that are still to be made.
pub struct Context {
    resources: Resources,
    state: State,
    // The log is boxed so that it has an address that stays the same while
    // the context moves: the driver is given that address once.
    error_log: Box<Diagnostics>,
    viewport: URect,
    commands: Vec<Command>,
}

/// What a [`Context`] holds.
pub struct Machine {
    pub resources: Resources,
    pub state: State,
    pub log: Log,
    pub viewport: URect,
    pub pending: Seq<Command>,
}

impl View for Context {
    type V = Machine;

    closed spec fn view(&self) -> Machine {
        Machine {
            resources: self.resources,
            state: self.state,
            log: (*self.error_log)@,
            viewport: self.viewport,
            pending: self.commands@,
        }
    }
}

impl Context {
    pub open spec fn well_formed(&self) -> bool {
        self@.resources.well_formed()
    }

    /// Sets up the layer over a native context of version 4.3 or later.
    ///
    /// `probe` is what the native context says of itself, or `None` where
    /// the entry points of the native API could not be loaded. The error is
    /// `InvalidContext` where they could not, or where the version is
    /// earlier than 4.3.
    pub fn new(probe: Option<Probe>) -> (made: Result<Self, Error>)
        ensures
            match made {
                Ok(context) => rejection(probe) is None && context.well_formed()
                    && context@.resources.is_empty() && context@.state == State::unbound()
                    && context@.log == Log::empty(LOG_CAPACITY as nat) && context@.viewport == (
                    URect {
                        x: probe.unwrap().viewport@[0] as u32,
                        y: probe.unwrap().viewport@[1] as u32,
                        width: probe.unwrap().viewport@[2] as u32,
                        height: probe.unwrap().viewport@[3] as u32,
                    }) && context@.pending == setup(),
                Err(error) => rejection(probe) == Some(error@),
            },
    {
        let probe = match probe {
            Some(probe) => probe,
            None => {
                return Err(
                    Error::InvalidContext(String::from_str("failed to load OpenGL fn pointers")),
                );
            },
        };
        if probe.major < 4 || (probe.major == 4 && probe.minor < 3) {
            let mut cause = String::from_str("version 4.3 required, received ");
            cause.append(to_signed_decimal(probe.major).as_str());
            cause.append(".");
            cause.append(to_signed_decimal(probe.minor).as_str());
            return Err(Error::InvalidContext(cause));
        }
        let x = to_unsigned(probe.viewport[0], "viewport x to u32")?;
        let y = to_unsigned(probe.viewport[1], "viewport y to u32")?;
        let width = to_unsigned(probe.viewport[2], "viewport width to u32")?;
        let height = to_unsigned(probe.viewport[3], "viewport height to u32")?;
        let mut commands: Vec<Command> = Vec::new();
        commands.push(Command::Enable { capability: DEBUG_OUTPUT });
        commands.push(Command::DebugMessageCallback);
        commands.push(Command::Enable { capability: SCISSOR_TEST });
        assert(commands@ =~= setup());
        Ok(
            Self {
                resources: Resources::with_capacity(POOL_CAPACITY),
                state: State::default(),
                error_log: Box::new(Diagnostics::with_capacity(LOG_CAPACITY)),
                viewport: URect { x, y, width, height },
                commands,
            },
        )
    }

    /// Hands out the native calls that are still to be made, in the order
    /// in which they are to be made, and empties the queue.
    pub fn take_commands(&mut self) -> (commands: Vec<Command>)
        ensures
            commands@ == old(self)@.pending,
            final(self)@ == (Machine { pending: Seq::empty(), ..old(self)@ }),
    {
        let mut commands: Vec<Command> = Vec::new();
        core::mem::swap(&mut commands, &mut self.commands);
        commands
    }

    /// Presents the frame.
    pub fn update(&mut self)
        ensures
            final(self)@ == (Machine {
                pending: old(self)@.pending.push(Command::SwapBuffers),
                ..old(self)@
            }),
    {
        self.commands.push(Command::SwapBuffers);
    }

    /// The log of what the driver reports. It stays where it is for as long
    /// as the context lives, so that the driver can be told where to send its
    /// messages.
    pub fn error_log_mut(&mut self) -> (log: &mut Diagnostics)
        ensures
            log@ == old(self)@.log,
            final(self)@ == (Machine { log: final(log)@, ..old(self)@ }),
    {
        &mut *self.error_log
    }

    /// Takes a message of the driver, see [`Diagnostics::record`].
    pub fn debug_message(&mut self, source: u32, kind: u32, id: u32, severity: u32, text: &str) -> (record:
        Record)
        ensures
            final(self)@ == (Machine {
                log: old(self)@.log.record(
                    kind,
                    diagnostics::message_text(source, kind, id, text@),
                ),
                ..old(self)@
            }),
            record.level == diagnostics::level_of(severity),
            record.message@ == diagnostics::message_text(source, kind, id, text@),
            record.discarded == old(self)@.log.warns(kind),
    {
        self.error_log.record(source, kind, id, severity, text)
    }

    /// Hands out what the driver has reported since the last poll, oldest
    /// first, and empties the log; `None` where it has reported nothing.
    pub fn poll_errors(&mut self) -> (polled: Option<Vec<String>>)
        ensures
            match polled {
                Some(messages) => messages.deep_view() == old(self)@.log.messages && old(self)@.log.messages.len() > 0 && final(self)@ == (Machine {
                    log: old(self)@.log.drained(),
                    ..old(self)@
                }),
                None => old(self)@.log.messages.len() == 0 && final(self)@ == old(self)@,
            },
    {
        self.error_log.poll()
    }

    /// Clears the pools, releasing every native object, and forgets what is
    /// bound and what the driver has reported.
    pub fn reset(&mut self)
        ensures
            final(self).well_formed(),
            final(self)@.resources.is_empty(),
            final(self)@.state == State::unbound(),
            final(self)@.log == old(self)@.log.drained(),
            final(self)@.viewport == old(self)@.viewport,
            final(self)@.pending == old(self)@.pending + old(self)@.resources.releases(),
    {
        self.resources.clear(&mut self.commands);
        self.state.reset();
        self.error_log.clear();
    }

    /// The rectangle that the native context draws onto.
    pub fn viewport(&self) -> (viewport: URect)
        ensures
            viewport == self@.viewport,
    {
        self.viewport
    }

    /// Invokes a draw call, binding the render target, the layout and the
    /// program first.
    ///
    /// The error is `ResourceNotFound` where a handle refers to no resource,
    /// and `ConversionFailed` where `start` or `count` does not fit the
    /// native call. What was bound before the error stays bound, and nothing
    /// is drawn.
    pub fn draw(
        &mut self,
        render_target: RenderTargetHandle,
        primitive: Primitive,
        shader: ShaderHandle,
        layout: VertexLayoutHandle,
        start: usize,
        count: usize,
    ) -> (done: Result<(), Error>)
        ensures
            final(self)@ == (Machine {
                state: old(self)@.state.after_draw_state(
                    &old(self)@.resources,
                    render_target,
                    layout,
                    shader,
                ),
                pending: final(self)@.pending,
                ..old(self)@
            }),
            drawing(
                old(self)@.state,
                &old(self)@.resources,
                render_target,
                primitive,
                shader,
                layout,
                start,
                count,
            ).matches(old(self)@.pending, final(self)@.pending, done),
    {
        let ghost binding = self.state.draw_state_binding(
            &self.resources,
            render_target,
            layout,
            shader,
        );
        self.state.bind_draw_state(
            &mut self.resources,
            render_target,
            layout,
            shader,
            &mut self.commands,
        )?;
        proof {
            assert(self.commands@ + Seq::<Command>::empty() =~= old(self).commands@
                + binding.commands);
        }
        let first = to_i32(start, "start wraps around i32")?;
        let count = to_i32(count, "count wraps around i32")?;
        self.commands.push(Command::DrawArrays { mode: u32::from(primitive), first, count });
        proof {
            assert(self.commands@ =~= old(self).commands@ + (binding.commands + seq![
                Command::DrawArrays {
                    mode: crate::native::primitive_mode(primitive),
                    first,
                    count,
                },
            ]));
        }
        Ok(())
    }

    /// Creates a render target, a surface to draw onto.
    pub fn create_render_target(&mut self, render_target: RenderTarget) -> (created: Result<
        RenderTargetHandle,
        Error,
    >)
        requires
            old(self).well_formed(),
        ensures
            final(self).well_formed(),
            created matches Ok(handle) && handle@ == old(self)@.resources.render_targets@.next_key() && (final(self)@.resources.render_targets@.get(handle@) matches Some(native) && native.viewport()
                == render_target.viewport && native.clear_color() == render_target.clear_color
                && final(self)@.resources.render_targets@ == old(self)@.resources.render_targets@.insert(native)),
            final(self)@ == (Machine {
                resources: Resources {
                    render_targets: final(self)@.resources.render_targets,
                    ..old(self)@.resources
                },
                ..old(self)@
            }),
    {
        let native = render_target::Native::new(render_target);
        proof {
            crate::gen_vec::law_insert_issues_fresh_key(
                self.resources.render_targets@,
                native,
                self.resources.render_targets@.next_key(),
            );
        }
        Ok(self.resources.render_targets.insert(native))
    }

    /// The render target that the handle refers to.
    pub fn render_target(&self, handle: RenderTargetHandle) -> (found: Option<
        &render_target::Native,
    >)
        ensures
            found.is_some() == self@.resources.render_targets@.live(handle@),
            found matches Some(native) ==> self@.resources.render_targets@.get(handle@) == Some(
                *native,
            ),
    {
        self.resources.render_targets.get(handle)
    }

    /// Creates a buffer from the buffer that the native API has made under
    /// the name `id`, and uploads the data of the description, if it has
    /// any.
    ///
    /// The error is `ConversionFailed` where the length of the data in bytes
    /// does not fit the native call. Then no buffer is created, and the
    /// native one is deleted.
    pub fn create_buffer<T: FlatData>(&mut self, id: u32, buffer: &Buffer<T>) -> (created: Result<
        BufferHandle,
        Error,
    >)
        requires
            old(self).well_formed(),
        ensures
            final(self).well_formed(),
            buffer::Native::creation(id, buffer).matches(
                old(self)@.pending,
                final(self)@.pending,
                created,
            ),
            match created {
                Ok(handle) => handle@ == old(self)@.resources.buffers@.next_key() && (final(self)@.resources.buffers@.get(handle@) matches Some(native) && native.id() == id
                    && native.kind() == buffer::target_of(buffer.kind) && native.usage()
                    == buffer::hint_of(buffer.access, buffer.usage) && final(self)@.resources.buffers@ == old(self)@.resources.buffers@.insert(native)),
                Err(_) => final(self)@.resources.buffers == old(self)@.resources.buffers,
            },
            final(self)@ == (Machine {
                resources: Resources {
                    buffers: final(self)@.resources.buffers,
                    ..old(self)@.resources
                },
                pending: final(self)@.pending,
                ..old(self)@
            }),
    {
        let native = buffer::Native::new(id, buffer, &mut self.commands)?;
        proof {
            crate::gen_vec::law_insert_issues_fresh_key(
                self.resources.buffers@,
                native,
                self.resources.buffers@.next_key(),
            );
        }
        Ok(self.resources.buffers.insert(native))
    }

    /// The buffer that the handle refers to.
    pub fn buffer(&self, handle: BufferHandle) -> (found: Option<&buffer::Native>)
        ensures
            found.is_some() == self@.resources.buffers@.live(handle@),
            found matches Some(native) ==> self@.resources.buffers@.get(handle@) == Some(*native),
    {
        self.resources.buffers.get(handle)
    }

    /// Sets the data of the buffer that the handle refers to.
    ///
    /// The error is `ResourceNotFound` where the handle refers to no buffer,
    /// and `ConversionFailed` where the length of the data in bytes does not
    /// fit the native call.
    pub fn set_buffer_data<T: FlatData>(&mut self, handle: BufferHandle, data: &[T]) -> (done:
        Result<(), Error>)
        ensures
            (match old(self)@.resources.buffers@.get(handle@) {
                Some(native) => native.upload(
                    buffer::byte_len(data@.len(), vstd::layout::size_of::<T>()),
                ),
                None => Trace::failed(Failure::ResourceNotFound),
            }).matches(old(self)@.pending, final(self)@.pending, done),
            final(self)@ == (Machine { pending: final(self)@.pending, ..old(self)@ }),
    {
        proof {
            assert(self.commands@ + Seq::<Command>::empty() =~= self.commands@);
        }
        match self.resources.buffers.get(handle) {
            Some(native) => {
                let ghost bytes = buffer::byte_len(data@.len(), vstd::layout::size_of::<T>());
                let upload = buffer::plan_upload(native, data)?;
                self.commands.push(upload.0);
                self.commands.push(upload.1);
                proof {
                    assert(self.commands@ =~= old(self).commands@ + native.upload(
                        bytes,
                    ).commands);
                }
                Ok(())
            },
            None => Err(Error::ResourceNotFound),
        }
    }

    /// Creates a vertex layout from the layout that the native API has made
    /// under the name `id`, and makes it current.
    ///
    /// The error is `ConversionFailed` where a number of the description
    /// does not fit the native call, and `ResourceNotFound` where a buffer
    /// handle refers to no buffer. Then no layout is created, and the native
    /// one is deleted.
    pub fn create_layout(&mut self, id: u32, layout: &VertexLayout) -> (created: Result<
        VertexLayoutHandle,
        Error,
    >)
        requires
            old(self).well_formed(),
        ensures
            final(self).well_formed(),
            match created {
                Ok(handle) => handle@ == old(self)@.resources.layouts@.next_key() && (final(self)@.resources.layouts@.get(handle@) matches Some(native) && native.id() == id
                    && final(self)@.resources.layouts@ == old(self)@.resources.layouts@.insert(
                    native,
                )) && final(self)@.state == (State {
                    bound_layout: Some(handle),
                    ..old(self)@.state
                }) && final(self)@.pending == old(self)@.pending + vertex_layout::creation(
                    id,
                    layout@,
                    old(self)@.resources.buffers@,
                ).commands + (if old(self)@.state.bound_layout == Some(handle) {
                    Seq::<Command>::empty()
                } else {
                    seq![Command::BindVertexArray { array: id }]
                }),
                Err(_) => final(self)@.resources.layouts == old(self)@.resources.layouts && final(self)@.state == old(self)@.state && final(self)@.pending == old(self)@.pending
                    + vertex_layout::creation(
                    id,
                    layout@,
                    old(self)@.resources.buffers@,
                ).commands,
            },
            match created {
                Ok(_) => vertex_layout::creation(
                    id,
                    layout@,
                    old(self)@.resources.buffers@,
                ).failure is None,
                Err(error) => vertex_layout::creation(
                    id,
                    layout@,
                    old(self)@.resources.buffers@,
                ).failure == Some(error@),
            },
            final(self)@ == (Machine {
                resources: Resources {
                    layouts: final(self)@.resources.layouts,
                    ..old(self)@.resources
                },
                state: final(self)@.state,
                pending: final(self)@.pending,
                ..old(self)@
            }),
    {
        let native = vertex_layout::Native::new(
            id,
            layout,
            &self.resources.buffers,
            &mut self.commands,
        )?;
        proof {
            crate::gen_vec::law_insert_issues_fresh_key(
                self.resources.layouts@,
                native,
                self.resources.layouts@.next_key(),
            );
        }
        let handle = self.resources.layouts.insert(native);
        self.state.bind_layout(&mut self.resources, handle, &mut self.commands)?;
        Ok(handle)
    }

    /// The vertex layout that the handle refers to.
    pub fn layout(&self, handle: VertexLayoutHandle) -> (found: Option<&vertex_layout::Native>)
        ensures
            found.is_some() == self@.resources.layouts@.live(handle@),
            found matches Some(native) ==> self@.resources.layouts@.get(handle@) == Some(*native),
    {
        self.resources.layouts.get(handle)
    }

    /// Takes the stage that the native API has made under the name `id` and
    /// has its sources compiled, see [`stage::Native::new`].
    pub fn begin_stage(&mut self, id: u32, stage: crate::shader::Stage) -> (begun: Result<
        stage::Native,
        Error,
    >)
        ensures
            stage::submission(id, stage.sources@).matches(
                old(self)@.pending,
                final(self)@.pending,
                begun,
            ),
            begun matches Ok(native) ==> native.id() == id && native.kind() == stage.kind,
            final(self)@ == (Machine { pending: final(self)@.pending, ..old(self)@ }),
    {
        stage::Native::new(id, stage, &mut self.commands)
    }

    /// Takes the report of the compilation of a stage that is compiled for
    /// one program alone, see [`stage::Native::compile`].
    pub fn compile_stage(&mut self, native: stage::Native, report: &BuildReport) -> (compiled:
        Result<stage::Native, Error>)
        ensures
            match compiled {
                Ok(stage) => stage == native && stage::verdict(
                    report.status,
                    report.log_length,
                    report.reason(),
                ) is None && final(self)@.pending == old(self)@.pending,
                Err(error) => stage::verdict(report.status, report.log_length, report.reason())
                    == Some(error@) && final(self)@.pending == old(self)@.pending.push(
                    native.release(),
                ),
            },
            final(self)@ == (Machine { pending: final(self)@.pending, ..old(self)@ }),
    {
        native.compile(report, &mut self.commands)
    }

    /// Creates a shader stage from a stage whose sources have been handed to
    /// the compiler, and the report of the compilation.
    ///
    /// The error is `FailedToCompileShader`, with the text that the compiler
    /// left, where the compilation failed. Then no stage is created, and the
    /// native one is deleted.
    pub fn create_stage(&mut self, native: stage::Native, report: &BuildReport) -> (created:
        Result<StageHandle, Error>)
        requires
            old(self).well_formed(),
        ensures
            final(self).well_formed(),
            match created {
                Ok(handle) => stage::verdict(report.status, report.log_length, report.reason())
                    is None && handle@ == old(self)@.resources.stages@.next_key() && final(self)@.resources.stages@ == old(self)@.resources.stages@.insert(native) && final(self)@.pending == old(self)@.pending,
                Err(error) => stage::verdict(report.status, report.log_length, report.reason())
                    == Some(error@) && final(self)@.resources.stages == old(self)@.resources.stages && final(self)@.pending == old(self)@.pending.push(
                    native.release(),
                ),
            },
            final(self)@ == (Machine {
                resources: Resources {
                    stages: final(self)@.resources.stages,
                    ..old(self)@.resources
                },
                pending: final(self)@.pending,
                ..old(self)@
            }),
    {
        let native = native.compile(report, &mut self.commands)?;
        Ok(self.resources.stages.insert(native))
    }

    /// The shader stage that the handle refers to.
    pub fn stage(&self, handle: StageHandle) -> (found: Option<&stage::Native>)
        ensures
            found.is_some() == self@.resources.stages@.live(handle@),
            found matches Some(native) ==> self@.resources.stages@.get(handle@) == Some(*native),
    {
        self.resources.stages.get(handle)
    }

    /// Gives up the program that the native API has made under the name
    /// `id`, because a stage that was to be compiled for it has failed, see
    /// [`shader::Native::abandon`].
    pub fn abandon_shader(&mut self, id: u32, temporary: Vec<stage::Native>)
        ensures
            final(self)@ == (Machine {
                pending: old(self)@.pending + shader::abandonment(
                    id,
                    shader::names(temporary@),
                ),
                ..old(self)@
            }),
    {
        shader::Native::abandon(id, temporary, &mut self.commands);
    }

    /// Takes the program that the native API has made under the name `id`,
    /// attaches the stages to it and has it linked, see
    /// [`shader::Native::new`]. `temporary` holds the stages that were
    /// compiled for this program alone, `handles` names the others.
    ///
    /// The error is `ResourceNotFound` where a handle refers to no stage.
    pub fn begin_shader(
        &mut self,
        id: u32,
        handles: &[StageHandle],
        temporary: Vec<stage::Native>,
    ) -> (begun: Result<shader::Linking, Error>)
        ensures
            match begun {
                Ok(linking) => shader::all_live(handles@, old(self)@.resources.stages@)
                    && linking.id() == id && linking.temporary() == shader::names(temporary@)
                    && linking.attached() == shader::names(temporary@) + shader::resolved(
                    handles@,
                    old(self)@.resources.stages@,
                ) && final(self)@.pending == old(self)@.pending + shader::attachments(
                    id,
                    linking.attached(),
                ).push(Command::LinkProgram { program: id }),
                Err(error) => !shader::all_live(handles@, old(self)@.resources.stages@) && error@
                    == Failure::ResourceNotFound && final(self)@.pending == old(self)@.pending
                    + shader::abandonment(id, shader::names(temporary@)),
            },
            final(self)@ == (Machine { pending: final(self)@.pending, ..old(self)@ }),
    {
        shader::Native::new(id, handles, temporary, &self.resources.stages, &mut self.commands)
    }

    /// Creates a shader program from a program that has been handed to the
    /// linker, and the report of the linking.
    ///
    /// The error is `FailedToLinkShader`, with the text that the linker
    /// left, where the linking failed. Then no program is created, and the
    /// native one is deleted.
    pub fn create_shader(&mut self, linking: shader::Linking, report: &BuildReport) -> (created:
        Result<ShaderHandle, Error>)
        requires
            old(self).well_formed(),
        ensures
            final(self).well_formed(),
            match created {
                Ok(handle) => shader::verdict(report.status, report.log_length, report.reason())
                    is None && handle@ == old(self)@.resources.shaders@.next_key() && (final(self)@.resources.shaders@.get(handle@) matches Some(native) && native.id()
                    == linking.id() && final(self)@.resources.shaders@ == old(self)@.resources.shaders@.insert(native)) && final(self)@.pending == old(self)@.pending + shader::detachments(linking.id(), linking.attached())
                    + shader::releases(linking.temporary()),
                Err(error) => shader::verdict(report.status, report.log_length, report.reason())
                    == Some(error@) && final(self)@.resources.shaders == old(self)@.resources.shaders && final(self)@.pending == old(self)@.pending
                    + shader::abandonment(linking.id(), linking.temporary()),
            },
            final(self)@ == (Machine {
                resources: Resources {
                    shaders: final(self)@.resources.shaders,
                    ..old(self)@.resources
                },
                pending: final(self)@.pending,
                ..old(self)@
            }),
    {
        let native = linking.finish(report, &mut self.commands)?;
        proof {
            crate::gen_vec::law_insert_issues_fresh_key(
                self.resources.shaders@,
                native,
                self.resources.shaders@.next_key(),
            );
        }
        Ok(self.resources.shaders.insert(native))
    }

    /// The shader program that the handle refers to.
    pub fn shader(&self, handle: ShaderHandle) -> (found: Option<&shader::Native>)
        ensures
            found.is_some() == self@.resources.shaders@.live(handle@),
            found matches Some(native) ==> self@.resources.shaders@.get(handle@) == Some(*native),
    {
        self.resources.shaders.get(handle)
    }

    /// The render target that the handle refers to, for changing it. The
    /// target is made current first, unless it is the one on record; where
    /// that fails, nothing is handed out.
    pub fn render_target_mut(&mut self, handle: RenderTargetHandle) -> (found: Option<
        &mut render_target::Native,
    >)
        requires
            old(self).well_formed(),
        ensures
            final(self).well_formed(),
            final(self)@.pending == old(self)@.pending + render_target_binding(
                old(self)@.state.bound_render_target,
                old(self)@.resources.render_targets@,
                handle,
            ).commands,
            final(self)@.state == (State {
                bound_render_target: Some(handle),
                ..old(self)@.state
            }),
            found.is_some() == (render_target_binding(
                old(self)@.state.bound_render_target,
                old(self)@.resources.render_targets@,
                handle,
            ).failure is None && old(self)@.resources.render_targets@.live(handle@)),
            match found {
                Some(native) => old(self)@.resources.render_targets@.get(handle@) == Some(*native)
                    && final(self)@.resources.render_targets@ == old(
                    self)@.resources.render_targets@.replace(handle@, *final(native)),
                None => final(self)@.resources.render_targets@ == old(
                    self)@.resources.render_targets@,
            },
            final(self)@.log == old(self)@.log,
            final(self)@.viewport == old(self)@.viewport,
            final(self)@.resources.buffers == old(self)@.resources.buffers,
            final(self)@.resources.layouts == old(self)@.resources.layouts,
            final(self)@.resources.stages == old(self)@.resources.stages,
            final(self)@.resources.shaders == old(self)@.resources.shaders,
    {
        let bound = self.state.bind_render_target(
            &mut self.resources,
            handle,
            &mut self.commands,
        ).is_ok();
        if bound {
            self.resources.render_targets.get_mut(handle)
        } else {
            None
        }
    }

    /// The vertex layout that the handle refers to, for changing it. It is made
    /// current first, unless it is the one on record; where that fails,
    /// nothing is handed out.
    pub fn layout_mut(&mut self, handle: VertexLayoutHandle) -> (found: Option<&mut vertex_layout::Native>)
        requires
            old(self).well_formed(),
        ensures
            final(self).well_formed(),
            final(self)@.pending == old(self)@.pending + layout_binding(
                old(self)@.state.bound_layout,
                old(self)@.resources.layouts@,
                handle,
            ).commands,
            final(self)@.state == (State { bound_layout: Some(handle), ..old(self)@.state }),
            found.is_some() == (layout_binding(
                old(self)@.state.bound_layout,
                old(self)@.resources.layouts@,
                handle,
            ).failure is None && old(self)@.resources.layouts@.live(handle@)),
            match found {
                Some(native) => old(self)@.resources.layouts@.get(handle@) == Some(*native)
                    && final(self)@.resources.layouts@ == old(self)@.resources.layouts@.replace(
                    handle@,
                    *final(native),
                ),
                None => final(self)@.resources.layouts@ == old(self)@.resources.layouts@,
            },
            final(self)@.log == old(self)@.log,
            final(self)@.viewport == old(self)@.viewport,
            final(self)@.resources.buffers == old(self)@.resources.buffers,
            final(self)@.resources.stages == old(self)@.resources.stages,
            final(self)@.resources.shaders == old(self)@.resources.shaders,
            final(self)@.resources.render_targets == old(self)@.resources.render_targets,
    {
        let bound = self.state.bind_layout(&mut self.resources, handle, &mut self.commands).is_ok();
        if bound {
            self.resources.layouts.get_mut(handle)
        } else {
            None
        }
    }

    /// The shader program that the handle refers to, for changing it. It is made
    /// current first, unless it is the one on record; where that fails,
    /// nothing is handed out.
    pub fn shader_mut(&mut self, handle: ShaderHandle) -> (found: Option<&mut shader::Native>)
        requires
            old(self).well_formed(),
        ensures
            final(self).well_formed(),
            final(self)@.pending == old(self)@.pending + shader_binding(
                old(self)@.state.bound_shader,
                old(self)@.resources.shaders@,
                handle,
            ).commands,
            final(self)@.state == (State { bound_shader: Some(handle), ..old(self)@.state }),
            found.is_some() == (shader_binding(
                old(self)@.state.bound_shader,
                old(self)@.resources.shaders@,
                handle,
            ).failure is None && old(self)@.resources.shaders@.live(handle@)),
            match found {
                Some(native) => old(self)@.resources.shaders@.get(handle@) == Some(*native)
                    && final(self)@.resources.shaders@ == old(self)@.resources.shaders@.replace(
                    handle@,
                    *final(native),
                ),
                None => final(self)@.resources.shaders@ == old(self)@.resources.shaders@,
            },
            final(self)@.log == old(self)@.log,
            final(self)@.viewport == old(self)@.viewport,
            final(self)@.resources.buffers == old(self)@.resources.buffers,
            final(self)@.resources.layouts == old(self)@.resources.layouts,
            final(self)@.resources.stages == old(self)@.resources.stages,
            final(self)@.resources.render_targets == old(self)@.resources.render_targets,
    {
        let bound = self.state.bind_shader(&mut self.resources, handle, &mut self.commands).is_ok();
        if bound {
            self.resources.shaders.get_mut(handle)
        } else {
            None
        }
    }

    /// The buffer that the handle refers to, for changing it.
    pub fn buffer_mut(&mut self, handle: BufferHandle) -> (found: Option<&mut buffer::Native>)
        requires
            old(self).well_formed(),
        ensures
            final(self).well_formed(),
            found.is_some() == old(self)@.resources.buffers@.live(handle@),
            match found {
                Some(native) => old(self)@.resources.buffers@.get(handle@) == Some(*native)
                    && final(self)@.resources.buffers@ == old(self)@.resources.buffers@.replace(
                    handle@,
                    *final(native),
                ),
                None => final(self)@.resources.buffers@ == old(self)@.resources.buffers@,
            },
            final(self)@.pending == old(self)@.pending,
            final(self)@.state == old(self)@.state,
            final(self)@.log == old(self)@.log,
            final(self)@.viewport == old(self)@.viewport,
            final(self)@.resources.layouts == old(self)@.resources.layouts,
            final(self)@.resources.stages == old(self)@.resources.stages,
            final(self)@.resources.shaders == old(self)@.resources.shaders,
            final(self)@.resources.render_targets == old(self)@.resources.render_targets,
    {
        self.resources.buffers.get_mut(handle)
    }

    /// The vertex layout that the handle refers to, for changing it, and
    /// with it the buffers that the buffer handles refer to, in their order.
    /// The layout is made current first, as in [`Context::layout_mut`].
    pub fn layout_mut_and_buffers(
        &mut self,
        handle: VertexLayoutHandle,
        buffer_handles: &[BufferHandle],
    ) -> (found: (Option<&mut vertex_layout::Native>, Vec<Option<&buffer::Native>>))
        requires
            old(self).well_formed(),
        ensures
            final(self).well_formed(),
            final(self)@.pending == old(self)@.pending + layout_binding(
                old(self)@.state.bound_layout,
                old(self)@.resources.layouts@,
                handle,
            ).commands,
            final(self)@.state == (State { bound_layout: Some(handle), ..old(self)@.state }),
            found.0.is_some() == (layout_binding(
                old(self)@.state.bound_layout,
                old(self)@.resources.layouts@,
                handle,
            ).failure is None && old(self)@.resources.layouts@.live(handle@)),
            match found.0 {
                Some(native) => old(self)@.resources.layouts@.get(handle@) == Some(*native)
                    && final(self)@.resources.layouts@ == old(self)@.resources.layouts@.replace(
                    handle@,
                    *final(native),
                ),
                None => final(self)@.resources.layouts@ == old(self)@.resources.layouts@,
            },
            found.1@.len() == buffer_handles@.len(),
            forall|i: int|
                0 <= i < buffer_handles@.len() ==> (#[trigger] found.1@[i]).is_some() == old(
                    self)@.resources.buffers@.live(buffer_handles@[i]@) && (found.1@[i] matches Some(
                    native,
                ) ==> old(self)@.resources.buffers@.get(buffer_handles@[i]@) == Some(*native)),
            final(self)@.log == old(self)@.log,
            final(self)@.viewport == old(self)@.viewport,
            final(self)@.resources.buffers == old(self)@.resources.buffers,
            final(self)@.resources.stages == old(self)@.resources.stages,
            final(self)@.resources.shaders == old(self)@.resources.shaders,
            final(self)@.resources.render_targets == old(self)@.resources.render_targets,
    {
        let bound = self.state.bind_layout(&mut self.resources, handle, &mut self.commands).is_ok();
        let pool = &self.resources.buffers;
        let mut buffers: Vec<Option<&buffer::Native>> = Vec::with_capacity(buffer_handles.len());
        let mut at: usize = 0;
        while at < buffer_handles.len()
            invariant
                at <= buffer_handles@.len(),
                buffers@.len() == at,
                forall|i: int|
                    0 <= i < at ==> (#[trigger] buffers@[i]).is_some() == pool@.live(
                        buffer_handles@[i]@,
                    ) && (buffers@[i] matches Some(native) ==> pool@.get(buffer_handles@[i]@)
                        == Some(*native)),
            decreases buffer_handles@.len() - at,
        {
            buffers.push(pool.get(buffer_handles[at]));
            at = at + 1;
        }
        let layout = if bound {
            self.resources.layouts.get_mut(handle)
        } else {
            None
        };
        (layout, buffers)
    }
}

/// Asking for the handle that is on record asks nothing of the native API
/// and succeeds, whatever the pool holds: a resource that is bound twice in
/// a row is bound once.
pub proof fn law_rebind_asks_nothing(
    resources: &Resources,
    render_target: RenderTargetHandle,
    layout: VertexLayoutHandle,
    shader: ShaderHandle,
)
    ensures
        render_target_binding(Some(render_target), resources.render_targets@, render_target)
            == Trace::nothing(),
        layout_binding(Some(layout), resources.layouts@, layout) == Trace::nothing(),
        shader_binding(Some(shader), resources.shaders@, shader) == Trace::nothing(),
{
}

/// After the binding for a draw has succeeded, the binding for a draw with
/// the same handles asks nothing of the native API, and leaves the record as
/// it is.
pub proof fn law_second_binding_asks_nothing(
    state: State,
    resources: &Resources,
    render_target: RenderTargetHandle,
    layout: VertexLayoutHandle,
    shader: ShaderHandle,
)
    requires
        state.draw_state_binding(resources, render_target, layout, shader).failure is None,
    ensures
        state.after_draw_state(resources, render_target, layout, shader).draw_state_binding(
            resources,
            render_target,
            layout,
            shader,
        ) == Trace::nothing(),
        state.after_draw_state(resources, render_target, layout, shader).after_draw_state(
            resources,
            render_target,
            layout,
            shader,
        ) == state.after_draw_state(resources, render_target, layout, shader),
{
    let after = state.after_draw_state(resources, render_target, layout, shader);
    assert(after.draw_state_binding(resources, render_target, layout, shader).commands
        =~= Seq::<Command>::empty());
}

/// Binding asks for nothing but binds: it never submits a draw.
pub proof fn law_binding_only_binds(
    state: State,
    resources: &Resources,
    render_target: RenderTargetHandle,
    layout: VertexLayoutHandle,
    shader: ShaderHandle,
)
    ensures
        forall|i: int|
            0 <= i < state.draw_state_binding(
                resources,
                render_target,
                layout,
                shader,
            ).commands.len() ==> (#[trigger] state.draw_state_binding(
                resources,
                render_target,
                layout,
                shader,
            ).commands[i]).is_bind() && !state.draw_state_binding(
                resources,
                render_target,
                layout,
                shader,
            ).commands[i].is_draw(),
{
}

/// A draw that fails submits nothing: no command of it is a draw. A draw
/// that succeeds submits once, as the last thing it does.
pub proof fn law_draw_submits_once_or_never(
    state: State,
    resources: &Resources,
    render_target: RenderTargetHandle,
    primitive: Primitive,
    shader: ShaderHandle,
    layout: VertexLayoutHandle,
    start: usize,
    count: usize,
)
    ensures
        ({
            let draw = drawing(
                state,
                resources,
                render_target,
                primitive,
                shader,
                layout,
                start,
                count,
            );
            &&& draw.failure is Some ==> forall|i: int|
                0 <= i < draw.commands.len() ==> !(#[trigger] draw.commands[i]).is_draw()
            &&& draw.failure is None ==> draw.commands.len() > 0 && draw.commands.last()
                == (Command::DrawArrays {
                mode: crate::native::primitive_mode(primitive),
                first: start as i32,
                count: count as i32,
            }) && forall|i: int|
                0 <= i < draw.commands.len() - 1 ==> !(#[trigger] draw.commands[i]).is_draw()
        }),
{
    law_binding_only_binds(state, resources, render_target, layout, shader);
}

/// A draw onto a render target that is not in the pool, and not on record
/// from an earlier request, ends with `ResourceNotFound` and asks nothing of
/// the native API.
pub proof fn law_draw_needs_render_target(
    state: State,
    resources: &Resources,
    render_target: RenderTargetHandle,
    primitive: Primitive,
    shader: ShaderHandle,
    layout: VertexLayoutHandle,
    start: usize,
    count: usize,
)
    requires
        !resources.render_targets@.live(render_target@),
        state.bound_render_target != Some(render_target),
    ensures
        drawing(state, resources, render_target, primitive, shader, layout, start, count)
            == Trace::failed(Failure::ResourceNotFound),
{
}

/// A draw with handles that are in the pools and numbers that fit succeeds.
pub proof fn law_draw_succeeds(
    state: State,
    resources: &Resources,
    render_target: RenderTargetHandle,
    primitive: Primitive,
    shader: ShaderHandle,
    layout: VertexLayoutHandle,
    start: usize,
    count: usize,
)
    requires
        resources.render_targets@.get(render_target@) matches Some(native)
            && render_target::binding(native.viewport()).failure is None,
        resources.layouts@.live(layout@),
        resources.shaders@.live(shader@),
        start <= i32::MAX,
        count <= i32::MAX,
    ensures
        drawing(
            state,
            resources,
            render_target,
            primitive,
            shader,
            layout,
            start,
            count,
        ).failure is None,
{
}

} // verus!
