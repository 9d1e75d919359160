//! Registry of the compositor's outputs, resolved through a two-phase
//! "accumulate, then done" event pattern.
//!
//! Discovery binds each advertised output global; geometry, mode and name
//! events mutate the tracked entry until a completion event marks it
//! read-only.  Selection resolves a named output by exact name match, or
//! falls back to registry position 0; with no outputs at all it fails
//! hard.

use vstd::prelude::*;

use crate::frame::ProtocolViolation;

verus! {

/// The lowest output-global version that provides names and descriptions;
/// anything older fails the whole session, with no partial fallback.
pub const MIN_OUTPUT_VERSION: u32 = 2;

/// The highest output-global version the registry understands; newer
/// globals are bound at this version.
pub const MAX_OUTPUT_VERSION: u32 = 4;

/// Outputs bound below this version lack name/description events of their
/// own and take them from the extended-geometry object instead.
pub const OUTPUT_NAME_EVENT_VERSION: u32 = 4;

/// An output's current display mode.
#[derive(Clone, Copy, Debug, PartialEq, Eq, Structural)]
pub struct Mode {
    pub width: i32,
    pub height: i32,
    /// Vertical refresh rate in millihertz; 0 or negative when unknown.
    pub refresh: i32,
}

/// What is known about one compositor output.
#[derive(Debug)]
pub struct OutputInfo {
    pub name: String,
    pub description: String,
    pub mode: Mode,
    /// Set by the completion event; mode and name must not be read
    /// before it.
    pub done: bool,
}

/// The abstract state of one tracked output.
pub struct OutputModel {
    pub name: Seq<char>,
    pub description: Seq<char>,
    pub mode: Mode,
    pub done: bool,
}

impl View for OutputInfo {
    type V = OutputModel;

    open spec fn view(&self) -> OutputModel {
        OutputModel {
            name: self.name@,
            description: self.description@,
            mode: self.mode,
            done: self.done,
        }
    }
}

/// An inbound discovery event for one output, from the output global
/// itself or from its extended-geometry fallback object.
#[derive(Debug)]
pub enum OutputEvent {
    /// Physical geometry; not tracked.
    Geometry,
    /// A display mode advertisement, with the protocol's mode flags.
    Mode { flags: u32, width: i32, height: i32, refresh: i32 },
    /// All state for this output has been sent.
    Done,
    /// Scale factor; not tracked.
    Scale,
    Name(String),
    Description(String),
    /// Logical position from the extended-geometry object; not tracked.
    LogicalPosition,
    /// Logical size from the extended-geometry object; not tracked.
    LogicalSize,
}

/// Bit set in a mode advertisement's flags when it is the output's
/// current mode.
pub const MODE_FLAG_CURRENT: u32 = 1;

/// All mode-flag bits the wire protocol defines (current and preferred).
pub const MODE_FLAG_ALL: u32 = 3;

/// Whether a mode advertisement carries well-formed flags naming the
/// current mode.  Multiple tentative modes may be announced; only the
/// current one is retained.
pub open spec fn spec_mode_is_current(flags: u32) -> bool {
    flags & !MODE_FLAG_ALL == 0 && flags & MODE_FLAG_CURRENT == MODE_FLAG_CURRENT
}

/// How one discovery event folds into the tracked output state.
pub open spec fn spec_output_step(m: OutputModel, ev: OutputEvent) -> OutputModel {
    match ev {
        OutputEvent::Geometry => m,
        OutputEvent::Scale => m,
        OutputEvent::LogicalPosition => m,
        OutputEvent::LogicalSize => m,
        OutputEvent::Mode { flags, width, height, refresh } => {
            if spec_mode_is_current(flags) {
                OutputModel { mode: Mode { width, height, refresh }, ..m }
            } else {
                m
            }
        },
        OutputEvent::Done => OutputModel { done: true, ..m },
        OutputEvent::Name(name) => OutputModel { name: name@, ..m },
        OutputEvent::Description(description) => OutputModel { description: description@, ..m },
    }
}

/// Why output registration failed.
#[derive(Clone, Copy, Debug, PartialEq, Eq, Structural)]
pub enum RegistryError {
    /// The advertised output global predates name/description support;
    /// the whole session must fail rather than fall back partially.
    OutputVersionTooOld,
}

/// Why output selection failed.
#[derive(Clone, Copy, Debug, PartialEq, Eq, Structural)]
pub enum SelectError {
    /// A requested output name matched no tracked output.
    NamedOutputNotFound,
    /// The registry tracks no outputs at all.
    NoOutputs,
}

/// How to bind one advertised output global.
#[derive(Clone, Copy, Debug, PartialEq, Eq, Structural)]
pub struct BindPlan {
    /// The version to bind at.
    pub version: u32,
    /// Whether an extended-geometry object must supply name and
    /// description events.
    pub use_xdg_fallback: bool,
}

/// Decide how to bind an output global advertised at
/// `advertised_version`.  Too-old globals fail registration outright.
pub fn plan_output_bind(advertised_version: u32) -> (r: Result<BindPlan, RegistryError>)
    ensures
        advertised_version < MIN_OUTPUT_VERSION ==> r == Err::<BindPlan, RegistryError>(
            RegistryError::OutputVersionTooOld,
        ),
        advertised_version >= MIN_OUTPUT_VERSION ==> (r matches Ok(p) && p.version == (
        if advertised_version < MAX_OUTPUT_VERSION {
            advertised_version
        } else {
            MAX_OUTPUT_VERSION
        }) && p.use_xdg_fallback == (p.version < OUTPUT_NAME_EVENT_VERSION)),
{
    if advertised_version < MIN_OUTPUT_VERSION {
        return Err(RegistryError::OutputVersionTooOld);
    }
    let version: u32 = if advertised_version < MAX_OUTPUT_VERSION {
        advertised_version
    } else {
        MAX_OUTPUT_VERSION
    };
    Ok(BindPlan { version, use_xdg_fallback: version < OUTPUT_NAME_EVENT_VERSION })
}

/// The tracked outputs, in discovery order.
#[derive(Debug)]
pub struct OutputRegistry {
    pub outputs: Vec<OutputInfo>,
}

impl View for OutputRegistry {
    type V = Seq<OutputModel>;

    open spec fn view(&self) -> Seq<OutputModel> {
        self.outputs@.map_values(|o: OutputInfo| o@)
    }
}

/// The state a newly tracked output starts in.
pub open spec fn spec_blank_output() -> OutputModel {
    OutputModel {
        name: Seq::<char>::empty(),
        description: Seq::<char>::empty(),
        mode: Mode { width: 0, height: 0, refresh: 0 },
        done: false,
    }
}

impl OutputRegistry {
    /// An empty registry.
    pub fn new() -> (r: OutputRegistry)
        ensures
            r@ == Seq::<OutputModel>::empty(),
    {
        let r = OutputRegistry { outputs: Vec::new() };
        proof {
            assert(r@ =~= Seq::<OutputModel>::empty());
        }
        r
    }

    /// Start tracking one newly bound output; returns its registry index.
    pub fn add_output(&mut self) -> (idx: usize)
        ensures
            final(self)@ == old(self)@.push(spec_blank_output()),
            idx == old(self)@.len(),
    {
        let idx = self.outputs.len();
        self.outputs.push(
            OutputInfo {
                name: String::new(),
                description: String::new(),
                mode: Mode { width: 0, height: 0, refresh: 0 },
                done: false,
            },
        );
        proof {
            assert(final(self)@ =~= old(self)@.push(spec_blank_output()));
        }
        idx
    }

    /// Fold one discovery event into the output it names.  An event for
    /// an output the registry does not track is an invariant violation.
    pub fn handle_event(&mut self, index: usize, ev: OutputEvent) -> (r: Result<
        (),
        ProtocolViolation,
    >)
        ensures
            index < old(self)@.len() ==> r is Ok && final(self)@ == old(self)@.update(
                index as int,
                spec_output_step(old(self)@[index as int], ev),
            ),
            index >= old(self)@.len() ==> r == Err::<(), ProtocolViolation>(
                ProtocolViolation::UnknownOutput,
            ) && *final(self) == *old(self),
    {
        if index >= self.outputs.len() {
            return Err(ProtocolViolation::UnknownOutput);
        }
        let info = &mut self.outputs[index];
        match ev {
            OutputEvent::Geometry => (),
            OutputEvent::Scale => (),
            OutputEvent::LogicalPosition => (),
            OutputEvent::LogicalSize => (),
            OutputEvent::Mode { flags, width, height, refresh } => {
                if flags & !MODE_FLAG_ALL == 0 && flags & MODE_FLAG_CURRENT == MODE_FLAG_CURRENT {
                    info.mode = Mode { width, height, refresh };
                }
            },
            OutputEvent::Done => {
                info.done = true;
            },
            OutputEvent::Name(name) => {
                info.name = name;
            },
            OutputEvent::Description(description) => {
                info.description = description;
            },
        }
        proof {
            assert(final(self)@ =~= old(self)@.update(
                index as int,
                spec_output_step(old(self)@[index as int], ev),
            ));
        }
        Ok(())
    }

    /// How many outputs are tracked.
    pub fn len(&self) -> (r: usize)
        ensures
            r == self@.len(),
    {
        self.outputs.len()
    }

    /// Whether every tracked output has received its completion event:
    /// the predicate the discovery dispatch loop blocks on.
    pub fn all_done(&self) -> (r: bool)
        ensures
            r == forall|i: int| 0 <= i < self@.len() ==> (#[trigger] self@[i]).done,
    {
        let mut i: usize = 0;
        while i < self.outputs.len()
            invariant
                0 <= i <= self@.len(),
                forall|j: int| 0 <= j < i ==> (#[trigger] self@[j]).done,
            decreases self@.len() - i,
        {
            proof {
                assert(self@[i as int] == self.outputs@[i as int]@);
            }
            if !self.outputs[i].done {
                return false;
            }
            i += 1;
        }
        true
    }

    /// Resolve which output a capture should target: the first output
    /// whose name equals `name` exactly, or, absent a requested name,
    /// the output at registry position 0.
    pub fn select(&self, name: Option<&String>) -> (r: Result<usize, SelectError>)
        ensures
            match name {
                Some(n) => match r {
                    Ok(i) => 0 <= i < self@.len() && self@[i as int].name == n@ && (forall|j: int|
                        0 <= j < i ==> (#[trigger] self@[j]).name != n@),
                    Err(e) => e == SelectError::NamedOutputNotFound && (forall|j: int|
                        0 <= j < self@.len() ==> (#[trigger] self@[j]).name != n@),
                },
                None => match r {
                    Ok(i) => i == 0 && self@.len() > 0,
                    Err(e) => e == SelectError::NoOutputs && self@.len() == 0,
                },
            },
    {
        match name {
            Some(n) => {
                let mut i: usize = 0;
                while i < self.outputs.len()
                    invariant
                        name == Some(n),
                        0 <= i <= self@.len(),
                        forall|j: int| 0 <= j < i ==> (#[trigger] self@[j]).name != n@,
                    decreases self@.len() - i,
                {
                    proof {
                        assert(self@[i as int] == self.outputs@[i as int]@);
                    }
                    if self.outputs[i].name.eq(n) {
                        return Ok(i);
                    }
                    i += 1;
                }
                Err(SelectError::NamedOutputNotFound)
            },
            None => {
                if self.outputs.len() == 0 {
                    Err(SelectError::NoOutputs)
                } else {
                    Ok(0)
                }
            },
        }
    }
}

} // verus!
