use vstd::prelude::*;

verus! {

/// An engine: a world and three ordered lists of systems. Startup systems
/// run once when the window first becomes ready; on every frame the update
/// systems run, then the render systems, each list in the order in which its
/// systems were added.
pub struct Engine<W, S> {
    pub world: W,
    startup_systems: Vec<S>,
    update_systems: Vec<S>,
    render_systems: Vec<S>,
}

impl<W, S> Engine<W, S> {
    /// The world the systems run on.
    pub closed spec fn world_view(&self) -> W {
        self.world
    }

    /// The startup systems, in the order in which they run.
    pub closed spec fn startup_view(&self) -> Seq<S> {
        self.startup_systems@
    }

    /// The update systems, in the order in which they run.
    pub closed spec fn update_view(&self) -> Seq<S> {
        self.update_systems@
    }

    /// The render systems, in the order in which they run.
    pub closed spec fn render_view(&self) -> Seq<S> {
        self.render_systems@
    }

    /// An engine around `world`, with no systems yet.
    pub fn new(world: W) -> (engine: Self)
        ensures
            engine.world_view() == world,
            engine.startup_view() == Seq::<S>::empty(),
            engine.update_view() == Seq::<S>::empty(),
            engine.render_view() == Seq::<S>::empty(),
    {
        Self {
            world,
            startup_systems: Vec::new(),
            update_systems: Vec::new(),
            render_systems: Vec::new(),
        }
    }

    /// The same engine with `system` added after the startup systems it had.
    pub fn add_startup_system(self, system: S) -> (engine: Self)
        ensures
            engine.world_view() == self.world_view(),
            engine.startup_view() == self.startup_view().push(system),
            engine.update_view() == self.update_view(),
            engine.render_view() == self.render_view(),
    {
        let mut engine = self;
        engine.startup_systems.push(system);
        engine
    }

    /// The same engine with `system` added after the update systems it had.
    pub fn add_update_system(self, system: S) -> (engine: Self)
        ensures
            engine.world_view() == self.world_view(),
            engine.startup_view() == self.startup_view(),
            engine.update_view() == self.update_view().push(system),
            engine.render_view() == self.render_view(),
    {
        let mut engine = self;
        engine.update_systems.push(system);
        engine
    }

    /// The same engine with `system` added after the render systems it had.
    pub fn add_render_system(self, system: S) -> (engine: Self)
        ensures
            engine.world_view() == self.world_view(),
            engine.startup_view() == self.startup_view(),
            engine.update_view() == self.update_view(),
            engine.render_view() == self.render_view().push(system),
    {
        let mut engine = self;
        engine.render_systems.push(system);
        engine
    }

    /// The startup systems, in the order in which they run.
    pub fn startup_systems(&self) -> (systems: &Vec<S>)
        ensures
            systems@ == self.startup_view(),
    {
        &self.startup_systems
    }

    /// The update systems, in the order in which they run.
    pub fn update_systems(&self) -> (systems: &Vec<S>)
        ensures
            systems@ == self.update_view(),
    {
        &self.update_systems
    }

    /// The render systems, in the order in which they run.
    pub fn render_systems(&self) -> (systems: &Vec<S>)
        ensures
            systems@ == self.render_view(),
    {
        &self.render_systems
    }
}

/// The pixels of a frame, row by row, `width * height` of them when the
/// buffer is complete.
pub struct FrameBuffer {
    pub width: u32,
    pub height: u32,
    pub pixels: Vec<u32>,
}

impl FrameBuffer {
    /// A black frame of `width` by `height` pixels.
    pub fn new(width: u32, height: u32) -> (fb: Self)
        requires
            width * height <= u32::MAX,
        ensures
            fb.width == width,
            fb.height == height,
            fb.pixels@ == Seq::new((width * height) as nat, |i: int| 0u32),
    {
        let pixels: Vec<u32> = vec![0; (width * height) as usize];
        assert(pixels@ =~= Seq::new((width * height) as nat, |i: int| 0u32));
        Self { width, height, pixels }
    }

    /// Turns every pixel black.
    pub fn clear(&mut self)
        ensures
            final(self).width == old(self).width,
            final(self).height == old(self).height,
            final(self).pixels@ == Seq::new(old(self).pixels@.len(), |i: int| 0u32),
    {
        let n = self.pixels.len();
        let mut i: usize = 0;
        while i < n
            invariant
                i <= n,
                n == old(self).pixels@.len(),
                self.width == old(self).width,
                self.height == old(self).height,
                self.pixels@.len() == n,
                forall|k: int| 0 <= k < i ==> self.pixels@[k] == 0u32,
            decreases n - i,
        {
            self.pixels.set(i, 0);
            i = i + 1;
        }
        assert(self.pixels@ =~= Seq::new(n as nat, |i: int| 0u32));
    }

    /// Whether the buffer holds exactly `width * height` pixels, so that it
    /// can be shown as a whole.
    pub fn is_complete(&self) -> (r: bool)
        requires
            self.width * self.height <= u32::MAX,
        ensures
            r == (self.pixels@.len() == self.width * self.height),
    {
        self.pixels.len() == (self.width * self.height) as usize
    }
}

/// Where the engine's window stands.
#[derive(Debug, Clone, Copy, PartialEq, Eq, Structural)]
pub enum RunnerPhase {
    /// No window yet.
    Initial,
    /// A window, but nothing to draw on.
    Suspended,
    /// A window with a surface to draw on.
    Running,
}

/// What the event loop reports to the engine.
#[derive(Debug, Clone, Copy, PartialEq, Eq, Structural)]
pub enum RunnerEvent {
    /// New events are about to come; `init` is set on the very first round.
    NewEvents { init: bool },
    /// The application may draw again; the window has this inner size.
    Resumed { width: u32, height: u32 },
    /// The application must stop drawing.
    Suspended,
    /// The loop is about to wait for events.
    AboutToWait,
    /// The window was asked to close.
    CloseRequested,
    /// The window took this inner size.
    Resized { width: u32, height: u32 },
    /// The window asks for a new frame.
    RedrawRequested,
    /// Any other window event (keyboard, mouse, ...).
    OtherWindowEvent,
}

/// What the engine asks the event loop to do, in order.
#[derive(Debug, Clone, Copy, PartialEq, Eq, Structural)]
pub enum RunnerCommand {
    /// Create the window.
    CreateWindow,
    /// Create a drawing surface for the window.
    CreateSurface,
    /// Give the surface this size.
    ResizeSurface { width: u32, height: u32 },
    /// Store a black frame buffer of this size as a resource of the world.
    InstallFrameBuffer { width: u32, height: u32 },
    /// Run every startup system on the world.
    RunStartupSystems,
    /// Ask for a redraw when a frame's time has passed, else wait for it.
    PaceFrame,
    /// Tell that there is no surface to draw on yet.
    ReportNotReady,
    /// Hand the window event to the device input resource, if there is one.
    ProcessInput,
    /// Leave the event loop.
    Exit,
    /// Turn the world's frame buffer black.
    ClearFrame,
    /// Run every update system on the world.
    RunUpdateSystems,
    /// Run every render system on the world.
    RunRenderSystems,
    /// Copy the world's frame buffer to the surface, if it is complete.
    PresentFrame,
    /// End the input frame of the device input resource, if there is one.
    EndInputFrame,
}

/// The phase that follows an event and the commands it calls for, in order.
pub struct RunnerStep {
    pub phase: RunnerPhase,
    pub commands: Vec<RunnerCommand>,
}

/// Resizing the surface and installing a frame buffer, for a size that is not
/// zero in either direction; nothing otherwise.
pub open spec fn resize_commands(width: u32, height: u32) -> Seq<RunnerCommand> {
    if width > 0 && height > 0 {
        seq![
            RunnerCommand::ResizeSurface { width, height },
            RunnerCommand::InstallFrameBuffer { width, height },
        ]
    } else {
        Seq::empty()
    }
}

/// How the engine answers `event` in `phase`: the next phase and the
/// commands, or `None` where the event cannot come in that phase.
pub open spec fn runner_answer(phase: RunnerPhase, event: RunnerEvent) -> Option<
    (RunnerPhase, Seq<RunnerCommand>),
> {
    match event {
        RunnerEvent::NewEvents { init } => if init {
            Some((RunnerPhase::Suspended, seq![RunnerCommand::CreateWindow]))
        } else {
            Some((phase, Seq::empty()))
        },
        RunnerEvent::Resumed { width, height } => if phase == RunnerPhase::Suspended {
            Some(
                (
                    RunnerPhase::Running,
                    seq![RunnerCommand::CreateSurface] + resize_commands(width, height) + seq![
                        RunnerCommand::RunStartupSystems,
                    ],
                ),
            )
        } else {
            None
        },
        RunnerEvent::Suspended => if phase == RunnerPhase::Running {
            Some((RunnerPhase::Suspended, Seq::empty()))
        } else {
            None
        },
        RunnerEvent::AboutToWait => if phase == RunnerPhase::Running {
            Some((phase, seq![RunnerCommand::PaceFrame]))
        } else {
            Some((phase, seq![RunnerCommand::ReportNotReady]))
        },
        RunnerEvent::CloseRequested => Some(
            (phase, seq![RunnerCommand::ProcessInput, RunnerCommand::Exit]),
        ),
        RunnerEvent::Resized { width, height } => if phase == RunnerPhase::Running {
            Some((phase, seq![RunnerCommand::ProcessInput] + resize_commands(width, height)))
        } else {
            None
        },
        RunnerEvent::RedrawRequested => if phase == RunnerPhase::Running {
            Some(
                (
                    phase,
                    seq![
                        RunnerCommand::ProcessInput,
                        RunnerCommand::ClearFrame,
                        RunnerCommand::RunUpdateSystems,
                        RunnerCommand::RunRenderSystems,
                        RunnerCommand::PresentFrame,
                        RunnerCommand::EndInputFrame,
                    ],
                ),
            )
        } else {
            None
        },
        RunnerEvent::OtherWindowEvent => Some((phase, seq![RunnerCommand::ProcessInput])),
    }
}

fn push_resize_commands(commands: &mut Vec<RunnerCommand>, width: u32, height: u32)
    ensures
        final(commands)@ == old(commands)@ + resize_commands(width, height),
{
    if width > 0 && height > 0 {
        commands.push(RunnerCommand::ResizeSurface { width, height });
        commands.push(RunnerCommand::InstallFrameBuffer { width, height });
    }
    assert(final(commands)@ =~= old(commands)@ + resize_commands(width, height));
}

/// The engine's answer to `event` in `phase`: `None` where the event cannot
/// come in that phase (a resume while not suspended, a suspension, resize or
/// redraw while not running).
pub fn runner_step(phase: RunnerPhase, event: RunnerEvent) -> (step: Option<RunnerStep>)
    ensures
        match (step, runner_answer(phase, event)) {
            (Some(s), Some((p, cmds))) => s.phase == p && s.commands@ == cmds,
            (None, None) => true,
            _ => false,
        },
{
    let mut commands: Vec<RunnerCommand> = Vec::new();
    let running = match phase {
        RunnerPhase::Running => true,
        _ => false,
    };
    let next = match event {
        RunnerEvent::NewEvents { init } => {
            if init {
                commands.push(RunnerCommand::CreateWindow);
                RunnerPhase::Suspended
            } else {
                phase
            }
        },
        RunnerEvent::Resumed { width, height } => {
            match phase {
                RunnerPhase::Suspended => {},
                _ => {
                    return None;
                },
            }
            commands.push(RunnerCommand::CreateSurface);
            push_resize_commands(&mut commands, width, height);
            commands.push(RunnerCommand::RunStartupSystems);
            RunnerPhase::Running
        },
        RunnerEvent::Suspended => {
            if !running {
                return None;
            }
            RunnerPhase::Suspended
        },
        RunnerEvent::AboutToWait => {
            if running {
                commands.push(RunnerCommand::PaceFrame);
            } else {
                commands.push(RunnerCommand::ReportNotReady);
            }
            phase
        },
        RunnerEvent::CloseRequested => {
            commands.push(RunnerCommand::ProcessInput);
            commands.push(RunnerCommand::Exit);
            phase
        },
        RunnerEvent::Resized { width, height } => {
            if !running {
                return None;
            }
            commands.push(RunnerCommand::ProcessInput);
            push_resize_commands(&mut commands, width, height);
            phase
        },
        RunnerEvent::RedrawRequested => {
            if !running {
                return None;
            }
            commands.push(RunnerCommand::ProcessInput);
            commands.push(RunnerCommand::ClearFrame);
            commands.push(RunnerCommand::RunUpdateSystems);
            commands.push(RunnerCommand::RunRenderSystems);
            commands.push(RunnerCommand::PresentFrame);
            commands.push(RunnerCommand::EndInputFrame);
            phase
        },
        RunnerEvent::OtherWindowEvent => {
            commands.push(RunnerCommand::ProcessInput);
            phase
        },
    };
    proof {
        match runner_answer(phase, event) {
            Some((p, cmds)) => {
                assert(commands@ =~= cmds);
            },
            None => {},
        }
    }
    Some(RunnerStep { phase: next, commands })
}

/// Startup systems run only when a suspended window resumes, and the engine
/// is then running.
pub proof fn startup_only_on_resume(phase: RunnerPhase, event: RunnerEvent)
    ensures
        match runner_answer(phase, event) {
            Some((next, cmds)) => cmds.contains(RunnerCommand::RunStartupSystems) ==> {
                &&& phase == RunnerPhase::Suspended
                &&& event is Resumed
                &&& next == RunnerPhase::Running
            },
            None => true,
        },
{
    if let Some((next, cmds)) = runner_answer(phase, event) {
        if cmds.contains(RunnerCommand::RunStartupSystems) {
            let i = choose|i: int| 0 <= i < cmds.len() && cmds[i] == RunnerCommand::RunStartupSystems;
            match event {
                RunnerEvent::Resized { width, height } => {
                    assert(cmds[i] is ProcessInput || resize_commands(width, height).contains(
                        cmds[i],
                    ));
                },
                _ => {},
            }
        }
    }
}

/// A frame buffer is only ever installed with a size that is not zero in
/// either direction.
pub proof fn frame_buffer_never_empty(phase: RunnerPhase, event: RunnerEvent, width: u32, height: u32)
    ensures
        match runner_answer(phase, event) {
            Some((next, cmds)) => cmds.contains(
                RunnerCommand::InstallFrameBuffer { width, height },
            ) ==> width > 0 && height > 0,
            None => true,
        },
{
    if let Some((next, cmds)) = runner_answer(phase, event) {
        let c = RunnerCommand::InstallFrameBuffer { width, height };
        if cmds.contains(c) {
            let i = choose|i: int| 0 <= i < cmds.len() && cmds[i] == c;
            match event {
                RunnerEvent::Resumed { width: w, height: h } => {
                    if !(w > 0 && h > 0) {
                        assert(cmds =~= seq![
                            RunnerCommand::CreateSurface,
                            RunnerCommand::RunStartupSystems,
                        ]);
                    }
                },
                RunnerEvent::Resized { width: w, height: h } => {
                    if !(w > 0 && h > 0) {
                        assert(cmds =~= seq![RunnerCommand::ProcessInput]);
                    }
                },
                _ => {},
            }
        }
    }
}

/// On every frame the update systems run before the render systems, both
/// after the frame buffer is cleared and before it is shown.
pub proof fn frame_order(phase: RunnerPhase)
    ensures
        match runner_answer(phase, RunnerEvent::RedrawRequested) {
            Some((next, cmds)) => {
            &&& next == phase
            &&& cmds.index_of(RunnerCommand::ClearFrame) < cmds.index_of(
                RunnerCommand::RunUpdateSystems,
            )
            &&& cmds.index_of(RunnerCommand::RunUpdateSystems) < cmds.index_of(
                RunnerCommand::RunRenderSystems,
            )
            &&& cmds.index_of(RunnerCommand::RunRenderSystems) < cmds.index_of(
                RunnerCommand::PresentFrame,
            )
            },
            None => phase != RunnerPhase::Running,
        },
{
}

/// The engine leaves the event loop exactly when the window is asked to
/// close, whatever the phase.
pub proof fn exit_only_on_close(phase: RunnerPhase, event: RunnerEvent)
    ensures
        match runner_answer(phase, event) {
            Some((next, cmds)) => cmds.contains(RunnerCommand::Exit) <==> event
                == RunnerEvent::CloseRequested,
            None => event != RunnerEvent::CloseRequested,
        },
{
    if let Some((next, cmds)) = runner_answer(phase, event) {
        if event == RunnerEvent::CloseRequested {
            assert(cmds[1] == RunnerCommand::Exit);
        }
        if cmds.contains(RunnerCommand::Exit) {
            let i = choose|i: int| 0 <= i < cmds.len() && cmds[i] == RunnerCommand::Exit;
            match event {
                RunnerEvent::Resized { width, height } => {
                    assert(cmds[i] is ProcessInput || resize_commands(width, height).contains(
                        cmds[i],
                    ));
                },
                RunnerEvent::Resumed { width, height } => {
                    assert(cmds[i] is CreateSurface || cmds[i] is RunStartupSystems
                        || resize_commands(width, height).contains(cmds[i]));
                },
                _ => {},
            }
        }
    }
}

/// A resize of the running window with a size that is not zero in either
/// direction resizes the surface and installs a frame buffer of that size,
/// after the input is processed; a resize to an empty size only processes
/// the input; a resize while not running cannot come.
pub proof fn resize_law(phase: RunnerPhase, width: u32, height: u32)
    ensures
        phase == RunnerPhase::Running && width > 0 && height > 0 ==> runner_answer(
            phase,
            RunnerEvent::Resized { width, height },
        ) == Some(
            (
                RunnerPhase::Running,
                seq![
                    RunnerCommand::ProcessInput,
                    RunnerCommand::ResizeSurface { width, height },
                    RunnerCommand::InstallFrameBuffer { width, height },
                ],
            ),
        ),
        phase == RunnerPhase::Running && (width == 0 || height == 0) ==> runner_answer(
            phase,
            RunnerEvent::Resized { width, height },
        ) == Some((RunnerPhase::Running, seq![RunnerCommand::ProcessInput])),
        phase != RunnerPhase::Running ==> runner_answer(
            phase,
            RunnerEvent::Resized { width, height },
        ) is None,
{
    if phase == RunnerPhase::Running {
        let cmds = seq![RunnerCommand::ProcessInput] + resize_commands(width, height);
        if width > 0 && height > 0 {
            assert(cmds =~= seq![
                RunnerCommand::ProcessInput,
                RunnerCommand::ResizeSurface { width, height },
                RunnerCommand::InstallFrameBuffer { width, height },
            ]);
        } else {
            assert(cmds =~= seq![RunnerCommand::ProcessInput]);
        }
    }
}

/// A suspended window that resumes gets a surface, then (for a size that is
/// not zero in either direction) a surface size and a frame buffer of its
/// size, then the startup systems run, and the engine is running; a resume
/// in any other phase cannot come.
pub proof fn resume_law(phase: RunnerPhase, width: u32, height: u32)
    ensures
        phase == RunnerPhase::Suspended && width > 0 && height > 0 ==> runner_answer(
            phase,
            RunnerEvent::Resumed { width, height },
        ) == Some(
            (
                RunnerPhase::Running,
                seq![
                    RunnerCommand::CreateSurface,
                    RunnerCommand::ResizeSurface { width, height },
                    RunnerCommand::InstallFrameBuffer { width, height },
                    RunnerCommand::RunStartupSystems,
                ],
            ),
        ),
        phase == RunnerPhase::Suspended && (width == 0 || height == 0) ==> runner_answer(
            phase,
            RunnerEvent::Resumed { width, height },
        ) == Some(
            (
                RunnerPhase::Running,
                seq![RunnerCommand::CreateSurface, RunnerCommand::RunStartupSystems],
            ),
        ),
        phase != RunnerPhase::Suspended ==> runner_answer(
            phase,
            RunnerEvent::Resumed { width, height },
        ) is None,
{
    if phase == RunnerPhase::Suspended {
        let cmds = seq![RunnerCommand::CreateSurface] + resize_commands(width, height) + seq![
            RunnerCommand::RunStartupSystems,
        ];
        if width > 0 && height > 0 {
            assert(cmds =~= seq![
                RunnerCommand::CreateSurface,
                RunnerCommand::ResizeSurface { width, height },
                RunnerCommand::InstallFrameBuffer { width, height },
                RunnerCommand::RunStartupSystems,
            ]);
        } else {
            assert(cmds =~= seq![RunnerCommand::CreateSurface, RunnerCommand::RunStartupSystems]);
        }
    }
}

/// The remaining events: the first round creates the window and leaves the
/// engine suspended, later rounds change nothing; a running engine that is
/// suspended becomes suspended with nothing to do, and a suspension in any
/// other phase cannot come; waiting paces frames while running and reports
/// that nothing can be drawn otherwise; a close request processes the input
/// and exits in every phase; a redraw of the running window processes the
/// input, clears the frame, runs the update then the render systems,
/// presents the frame and ends the input frame, and cannot come in another
/// phase; any other window event only processes the input.
pub proof fn event_law(phase: RunnerPhase)
    ensures
        runner_answer(phase, RunnerEvent::NewEvents { init: true }) == Some(
            (RunnerPhase::Suspended, seq![RunnerCommand::CreateWindow]),
        ),
        runner_answer(phase, RunnerEvent::NewEvents { init: false }) == Some(
            (phase, Seq::<RunnerCommand>::empty()),
        ),
        phase == RunnerPhase::Running ==> runner_answer(phase, RunnerEvent::Suspended) == Some(
            (RunnerPhase::Suspended, Seq::<RunnerCommand>::empty()),
        ),
        phase != RunnerPhase::Running ==> runner_answer(phase, RunnerEvent::Suspended) is None,
        phase == RunnerPhase::Running ==> runner_answer(phase, RunnerEvent::AboutToWait) == Some(
            (RunnerPhase::Running, seq![RunnerCommand::PaceFrame]),
        ),
        phase != RunnerPhase::Running ==> runner_answer(phase, RunnerEvent::AboutToWait) == Some(
            (phase, seq![RunnerCommand::ReportNotReady]),
        ),
        runner_answer(phase, RunnerEvent::CloseRequested) == Some(
            (phase, seq![RunnerCommand::ProcessInput, RunnerCommand::Exit]),
        ),
        phase == RunnerPhase::Running ==> runner_answer(phase, RunnerEvent::RedrawRequested)
            == Some(
            (
                RunnerPhase::Running,
                seq![
                    RunnerCommand::ProcessInput,
                    RunnerCommand::ClearFrame,
                    RunnerCommand::RunUpdateSystems,
                    RunnerCommand::RunRenderSystems,
                    RunnerCommand::PresentFrame,
                    RunnerCommand::EndInputFrame,
                ],
            ),
        ),
        phase != RunnerPhase::Running ==> runner_answer(phase, RunnerEvent::RedrawRequested) is None,
        runner_answer(phase, RunnerEvent::OtherWindowEvent) == Some(
            (phase, seq![RunnerCommand::ProcessInput]),
        ),
{
}

} // verus!
