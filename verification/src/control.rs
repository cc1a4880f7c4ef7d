//! Control-flow model of a freestanding image: the loader hands control to
//! the entry symbol, which idles forever; an unrecoverable violation hands
//! control to the panic handler, which halts forever. Both terminal states
//! are absorbing.

use vstd::prelude::*;

verus! {

/// The control states reachable in the freestanding image.
#[derive(Clone, Copy, PartialEq, Eq, Structural, Debug)]
pub enum ControlState {
    /// The image is in memory but control has not yet reached the entry symbol.
    Loaded,
    /// The idle loop of the entry point: the normal terminal state.
    NormalIdle,
    /// The halt loop of the panic handler: the failure terminal state.
    PanicHalt,
}

/// The stimuli that can act on the control state.
#[derive(Clone, Copy, PartialEq, Eq, Structural, Debug)]
pub enum Event {
    /// The loader transfers control to the entry symbol.
    EntryInvoked,
    /// The runtime's own safety checks detect an unrecoverable violation.
    PanicRaised,
    /// One step of the processor with no other stimulus.
    Tick,
}

/// A state with no outgoing transition to any other state.
pub open spec fn is_terminal(s: ControlState) -> bool {
    s == ControlState::NormalIdle || s == ControlState::PanicHalt
}

/// The transition function of the image: the loaded image moves into one of
/// the two loops, and each loop absorbs every further event.
pub open spec fn spec_step(s: ControlState, e: Event) -> ControlState {
    match s {
        ControlState::Loaded => match e {
            Event::EntryInvoked => ControlState::NormalIdle,
            Event::PanicRaised => ControlState::PanicHalt,
            Event::Tick => ControlState::Loaded,
        },
        ControlState::NormalIdle => ControlState::NormalIdle,
        ControlState::PanicHalt => ControlState::PanicHalt,
    }
}

impl ControlState {
    /// Advance the model by one event.
    pub fn step(self, e: Event) -> (r: ControlState)
        ensures
            r == spec_step(self, e),
            is_terminal(self) ==> r == self,
    {
        match self {
            ControlState::Loaded => match e {
                Event::EntryInvoked => ControlState::NormalIdle,
                Event::PanicRaised => ControlState::PanicHalt,
                Event::Tick => ControlState::Loaded,
            },
            ControlState::NormalIdle => ControlState::NormalIdle,
            ControlState::PanicHalt => ControlState::PanicHalt,
        }
    }
}

/// Invocation of the entry point: it takes no input, computes nothing, and
/// control lands in the idle loop, never to leave it.
pub fn entry_transfer() -> (r: ControlState)
    ensures
        r == ControlState::NormalIdle,
{
    ControlState::NormalIdle
}

/// The diagnostic a panic carries: message and source location, when available.
#[derive(Clone, Debug)]
pub struct PanicDiagnostic {
    pub message: Option<String>,
    pub file: Option<String>,
    pub line: Option<u64>,
    pub column: Option<u64>,
}

/// The terminal handler: it receives the diagnostic, discards it (no output
/// device or logging sink exists at this layer), and control lands in the
/// halt loop, never to leave it. The result does not depend on the diagnostic.
pub fn panic_transfer(_info: &PanicDiagnostic) -> (r: ControlState)
    ensures
        r == ControlState::PanicHalt,
{
    ControlState::PanicHalt
}

/// The state after a whole sequence of events.
pub open spec fn run_events(s: ControlState, events: Seq<Event>) -> ControlState
    decreases events.len(),
{
    if events.len() == 0 {
        s
    } else {
        run_events(spec_step(s, events[0]), events.drop_first())
    }
}

/// Terminal states are absorbing: once control is in the idle loop or in the
/// halt loop, no sequence of further events moves it anywhere else.
pub proof fn lemma_terminal_absorbing(s: ControlState, events: Seq<Event>)
    requires
        is_terminal(s),
    ensures
        run_events(s, events) == s,
    decreases events.len(),
{
    if events.len() > 0 {
        lemma_terminal_absorbing(spec_step(s, events[0]), events.drop_first());
    }
}

/// The entry point never returns: after the loader invokes the entry symbol,
/// every further event leaves control in the idle loop, so the instruction
/// pointer converges to that loop and never leaves it.
pub proof fn lemma_entry_never_returns(events: Seq<Event>)
    ensures
        run_events(spec_step(ControlState::Loaded, Event::EntryInvoked), events)
            == ControlState::NormalIdle,
{
    lemma_terminal_absorbing(ControlState::NormalIdle, events);
}

/// After a panic the handler halts for good: no further user code runs, and
/// repeated ticks of the halt loop observe no state change.
pub proof fn lemma_panic_halts(events: Seq<Event>)
    ensures
        run_events(ControlState::PanicHalt, events) == ControlState::PanicHalt,
{
    lemma_terminal_absorbing(ControlState::PanicHalt, events);
}

/// The conventional bare-metal start symbol: the fixed, unmangled name under
/// which the loader looks for the program's first instruction.
pub open spec fn conventional_entry_symbol() -> Seq<char> {
    "_start"@
}

/// The name the entry point must be exposed under.
pub fn entry_symbol_name() -> (r: &'static str)
    ensures
        r@ == conventional_entry_symbol(),
{
    "_start"
}

/// Character-for-character equality of two strings.
pub fn str_eq(a: &str, b: &str) -> (r: bool)
    ensures
        r == (a@ == b@),
{
    let alen = a.unicode_len();
    let blen = b.unicode_len();
    if alen != blen {
        proof {
            assert(a@ != b@) by {
                if a@ == b@ {
                    assert(a@.len() == b@.len());
                }
            }
        }
        return false;
    }
    let mut i: usize = 0;
    while i < alen
        invariant
            alen == a@.len(),
            alen == b@.len(),
            i <= alen,
            forall|j: int| 0 <= j < i ==> a@[j] == b@[j],
        decreases alen - i,
    {
        if a.get_char(i) != b.get_char(i) {
            proof {
                assert(a@ != b@) by {
                    if a@ == b@ {
                        assert(a@[i as int] == b@[i as int]);
                    }
                }
            }
            return false;
        }
        i = i + 1;
    }
    proof {
        assert(a@ =~= b@);
    }
    true
}

/// Whether a symbol name matches the bare-metal start convention exactly: a
/// build that renames or mangles the entry symbol does not produce a runnable
/// freestanding image.
pub fn symbol_matches_convention(name: &str) -> (b: bool)
    ensures
        b == (name@ == conventional_entry_symbol()),
{
    str_eq(name, "_start")
}

/// How a build of the image is configured, as far as the freestanding
/// contract is concerned.
#[derive(Clone, Debug)]
pub struct BuildConfig {
    /// A hosted runtime's startup code would be linked in.
    pub links_hosted_startup: bool,
    /// A higher-level `main` entry convention would be relied on.
    pub uses_main_convention: bool,
    /// The entry symbol's name would be mangled.
    pub entry_symbol_mangled: bool,
    /// The name the entry is exposed under.
    pub entry_symbol: String,
}

impl BuildConfig {
    /// The build contract: no standard-runtime startup code, no `main`
    /// convention, and the entry exposed unmangled under the conventional
    /// start symbol.
    pub open spec fn is_freestanding(self) -> bool {
        !self.links_hosted_startup && !self.uses_main_convention && !self.entry_symbol_mangled
            && self.entry_symbol@ == conventional_entry_symbol()
    }

    /// Whether this configuration produces a runnable freestanding image:
    /// any accidental inclusion of hosted startup code, reliance on `main`,
    /// or a renamed or mangled entry symbol is rejected.
    pub fn check(&self) -> (b: bool)
        ensures
            b == self.is_freestanding(),
    {
        !self.links_hosted_startup && !self.uses_main_convention && !self.entry_symbol_mangled
            && str_eq(self.entry_symbol.as_str(), "_start")
    }
}

} // verus!
