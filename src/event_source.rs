use crate::error::Error;
use crate::event::Event;
use crate::text::{
    contains, first_word, first_word_of, folded, has_substring, lowercase, output_text,
    output_to_string, parse_u8, parse_unsigned, unsigned_value,
};
use vstd::prelude::*;
use vstd::string::StringExecFns;
use vstd::utf8::valid_utf8;

verus! {

/// What a poller watches, and how it turns that into a value.
#[derive(Clone)]
pub enum UserEventSourceKind {
    /// Looks at the focused window. `mappings` are `(pattern, value)` rules,
    /// tried in order; `default_value` is sent when none matches;
    /// `use_lowercase` compares both sides in lower case.
    CurrentProgram { mappings: Vec<(String, u8)>, default_value: u8, use_lowercase: bool },
    /// Runs `command` and sends the byte value that it prints.
    UserDefined { command: String },
}

/// One poller: what it watches, how often, and which command it drives.
#[derive(Clone)]
pub struct UserEventConfig {
    /// Seconds between two ticks.
    pub interval_seconds: u64,
    pub kind: UserEventSourceKind,
    /// The command id of every event this poller emits.
    pub command_id: u8,
}

/// The pollers of a run and the capacity of the queue they share.
#[derive(Clone)]
pub struct UserEventSource {
    pub sources: Vec<UserEventConfig>,
    pub buffer_size: usize,
}

/// The focused window: the executable that owns it and its title.
#[derive(Clone, Debug)]
pub struct ActiveProgramData {
    pub binary: String,
    pub name: String,
}

/// What an external command left behind: whether it exited successfully and
/// the bytes of its two output streams.
#[derive(Clone, Debug)]
pub struct CommandOutput {
    pub success: bool,
    pub stdout: Vec<u8>,
    pub stderr: Vec<u8>,
}

/// The rules as `(pattern, value)` pairs of character sequences.
pub open spec fn rules_view(m: Seq<(String, u8)>) -> Seq<(Seq<char>, u8)> {
    m.map_values(|r: (String, u8)| (r.0@, r.1))
}

/// The rules with each pattern folded as `fold` says.
pub open spec fn folded_rules(rules: Seq<(Seq<char>, u8)>, fold: bool) -> Seq<(Seq<char>, u8)> {
    rules.map_values(|r: (Seq<char>, u8)| (folded(r.0, fold), r.1))
}

/// Rule `r` matches when its pattern occurs in the title or in the binary.
pub open spec fn rule_matches(r: (Seq<char>, u8), title: Seq<char>, binary: Seq<char>) -> bool {
    has_substring(title, r.0) || has_substring(binary, r.0)
}

/// The value of the first rule from index `i` on that matches.
pub open spec fn matched_from(
    rules: Seq<(Seq<char>, u8)>,
    i: int,
    title: Seq<char>,
    binary: Seq<char>,
) -> Option<u8>
    decreases rules.len() - i,
{
    if i < 0 || i >= rules.len() {
        None
    } else if rule_matches(rules[i], title, binary) {
        Some(rules[i].1)
    } else {
        matched_from(rules, i + 1, title, binary)
    }
}

/// The value a program-presence poller sends for the window `title` of
/// `binary`: the value of the first matching rule, else `default_value`.
pub open spec fn program_value(
    rules: Seq<(Seq<char>, u8)>,
    default_value: u8,
    fold: bool,
    title: Seq<char>,
    binary: Seq<char>,
) -> u8 {
    match matched_from(folded_rules(rules, fold), 0, folded(title, fold), folded(binary, fold)) {
        Some(v) => v,
        None => default_value,
    }
}

/// The event that `source` emits for `value`.
pub open spec fn event_for(source: UserEventConfig, value: u8) -> Event {
    Event::Send { command_id: source.command_id, command_data: value }
}

/// The event a program-presence poller emits for the window `program`; none
/// for a poller of the other kind.
pub open spec fn program_event(source: UserEventConfig, program: ActiveProgramData) -> Option<Event> {
    match source.kind {
        UserEventSourceKind::CurrentProgram { mappings, default_value, use_lowercase } => Some(
            event_for(
                source,
                program_value(
                    rules_view(mappings@),
                    default_value,
                    use_lowercase,
                    program.name@,
                    program.binary@,
                ),
            ),
        ),
        UserEventSourceKind::UserDefined { .. } => None,
    }
}

/// The text a command printed, if it succeeded and printed UTF-8.
pub open spec fn command_text(out: CommandOutput) -> Option<Seq<char>> {
    if out.success && valid_utf8(out.stdout@) {
        Some(output_text(out.stdout@))
    } else {
        None
    }
}

/// The byte value a script poller reads from the output of its command.
pub open spec fn script_value(out: CommandOutput) -> Option<u8> {
    match command_text(out) {
        Some(t) => match unsigned_value(t, 255) {
            Some(v) => Some(v as u8),
            None => None,
        },
        None => None,
    }
}

/// Skipping rules that match nothing leaves the first match unchanged.
proof fn lemma_skip_unmatched(
    rules: Seq<(Seq<char>, u8)>,
    k: int,
    title: Seq<char>,
    binary: Seq<char>,
)
    requires
        0 <= k <= rules.len(),
        forall|m: int| 0 <= m < k ==> !rule_matches(#[trigger] rules[m], title, binary),
    ensures
        matched_from(rules, 0, title, binary) == matched_from(rules, k, title, binary),
    decreases k,
{
    if k > 0 {
        lemma_skip_unmatched(rules, k - 1, title, binary);
        assert(!rule_matches(rules[k - 1], title, binary));
    }
}

/// Every event a poller emits carries that poller's command id, whichever
/// rule, default value or script output gave its data.
pub proof fn lemma_events_target_destination(
    source: UserEventConfig,
    program: ActiveProgramData,
    output: CommandOutput,
)
    ensures
        program_event(source, program) matches Some(e) ==> e.spec_command_id()
            == source.command_id,
        script_value(output) matches Some(v) ==> event_for(source, v).spec_command_id()
            == source.command_id,
{
}

/// A title match decides before a binary match of a later rule: when the
/// title matches rule `i`, the binary matches another rule `j`, and no rule
/// before `i` matches the title or the binary, the value of rule `i` is sent.
pub proof fn lemma_title_match_wins(
    rules: Seq<(Seq<char>, u8)>,
    default_value: u8,
    fold: bool,
    title: Seq<char>,
    binary: Seq<char>,
    i: int,
    j: int,
)
    requires
        0 <= i < rules.len(),
        0 <= j < rules.len(),
        i != j,
        has_substring(folded(title, fold), folded(rules[i].0, fold)),
        has_substring(folded(binary, fold), folded(rules[j].0, fold)),
        forall|k: int|
            0 <= k < i ==> !has_substring(folded(title, fold), folded(#[trigger] rules[k].0, fold))
                && !has_substring(folded(binary, fold), folded(rules[k].0, fold)),
    ensures
        program_value(rules, default_value, fold, title, binary) == rules[i].1,
{
    let fr = folded_rules(rules, fold);
    let t = folded(title, fold);
    let b = folded(binary, fold);
    assert forall|m: int| 0 <= m < i implies !rule_matches(#[trigger] fr[m], t, b) by {
        assert(fr[m] == (folded(rules[m].0, fold), rules[m].1));
    }
    lemma_skip_unmatched(fr, i, t, b);
    assert(fr[i] == (folded(rules[i].0, fold), rules[i].1));
}

/// Ticks against an unchanged focused window, or an unchanged command
/// output, give the same event.
pub proof fn lemma_ticks_repeat(
    source: UserEventConfig,
    first: ActiveProgramData,
    second: ActiveProgramData,
    out1: CommandOutput,
    out2: CommandOutput,
)
    requires
        first.name@ == second.name@,
        first.binary@ == second.binary@,
        out1.success == out2.success,
        out1.stdout@ == out2.stdout@,
    ensures
        program_event(source, first) == program_event(source, second),
        script_value(out1) == script_value(out2),
{
}

/// The text a command printed on standard output, if it succeeded and
/// printed UTF-8.
fn command_stdout_text(out: &CommandOutput) -> (r: Option<String>)
    ensures
        r is Some <==> command_text(*out) is Some,
        r is Some ==> r->0@ == command_text(*out)->0,
{
    if !out.success {
        return None;
    }
    output_to_string(out.stdout.clone())
}

/// The value of the first rule, in order, whose pattern occurs in `title`
/// or in `binary`; for one rule the title is tried first.
pub fn first_matching_value(rules: &Vec<(String, u8)>, title: &str, binary: &str) -> (r: Option<u8>)
    ensures
        r == matched_from(rules_view(rules@), 0, title@, binary@),
{
    let ghost rv = rules_view(rules@);
    let mut i: usize = 0;
    while i < rules.len()
        invariant
            i <= rules@.len(),
            rv == rules_view(rules@),
            matched_from(rv, 0, title@, binary@) == matched_from(rv, i as int, title@, binary@),
        decreases rules@.len() - i,
    {
        let pattern = rules[i].0.as_str();
        assert(rv[i as int] == (pattern@, rules@[i as int].1));
        if contains(title, pattern) {
            return Some(rules[i].1);
        }
        if contains(binary, pattern) {
            return Some(rules[i].1);
        }
        i = i + 1;
    }
    None
}

/// `rules` with each pattern lowercased when `fold` is set.
fn fold_rules(rules: &Vec<(String, u8)>, fold: bool) -> (r: Vec<(String, u8)>)
    ensures
        rules_view(r@) == folded_rules(rules_view(rules@), fold),
{
    let mut out: Vec<(String, u8)> = Vec::new();
    let mut i: usize = 0;
    while i < rules.len()
        invariant
            i <= rules@.len(),
            out@.len() == i,
            forall|k: int|
                0 <= k < i ==> (#[trigger] out@[k]).0@ == folded(rules@[k].0@, fold) && out@[k].1
                    == rules@[k].1,
        decreases rules@.len() - i,
    {
        let pattern = rules[i].0.as_str();
        let p = if fold {
            lowercase(pattern)
        } else {
            String::from_str(pattern)
        };
        out.push((p, rules[i].1));
        i = i + 1;
    }
    assert(rules_view(out@) =~= folded_rules(rules_view(rules@), fold));
    out
}

/// The value a program-presence poller sends while `title` of `binary` has
/// the focus.
pub fn select_value(
    mappings: &Vec<(String, u8)>,
    default_value: u8,
    use_lowercase: bool,
    title: &str,
    binary: &str,
) -> (r: u8)
    ensures
        r == program_value(rules_view(mappings@), default_value, use_lowercase, title@, binary@),
{
    let rules = fold_rules(mappings, use_lowercase);
    let t = if use_lowercase {
        lowercase(title)
    } else {
        String::from_str(title)
    };
    let b = if use_lowercase {
        lowercase(binary)
    } else {
        String::from_str(binary)
    };
    match first_matching_value(&rules, t.as_str(), b.as_str()) {
        Some(v) => v,
        None => default_value,
    }
}

impl UserEventSource {
    /// A set of pollers sharing a queue of `buffer_size` events.
    pub fn new(sources: Vec<UserEventConfig>, buffer_size: usize) -> (r: Self)
        ensures
            r.sources@ == sources@,
            r.buffer_size == buffer_size,
    {
        UserEventSource { sources, buffer_size }
    }

    /// One tick of a program-presence poller whose focused window is
    /// `program`.
    pub fn step_current_program(
        mappings: &Vec<(String, u8)>,
        default_value: u8,
        use_lowercase: bool,
        source: &UserEventConfig,
        program: &ActiveProgramData,
    ) -> (r: Event)
        ensures
            r == event_for(
                *source,
                program_value(
                    rules_view(mappings@),
                    default_value,
                    use_lowercase,
                    program.name@,
                    program.binary@,
                ),
            ),
    {
        let v = select_value(
            mappings,
            default_value,
            use_lowercase,
            program.name.as_str(),
            program.binary.as_str(),
        );
        Event::Send { command_id: source.command_id, command_data: v }
    }

    /// One tick of any poller: the event it emits for the focused window
    /// `program`, or `None` when the poller does not watch windows.
    pub fn step_source(source: &UserEventConfig, program: &ActiveProgramData) -> (r: Option<Event>)
        ensures
            r == program_event(*source, *program),
    {
        match &source.kind {
            UserEventSourceKind::CurrentProgram { mappings, default_value, use_lowercase } => {
                Some(
                    Self::step_current_program(
                        mappings,
                        *default_value,
                        *use_lowercase,
                        source,
                        program,
                    ),
                )
            },
            UserEventSourceKind::UserDefined { .. } => None,
        }
    }

    /// One tick of a script poller whose command left `output`.
    pub fn step_user_defined(source: &UserEventConfig, output: &CommandOutput) -> (r: Result<
        Event,
        Error,
    >)
        ensures
            r is Ok <==> script_value(*output) is Some,
            r is Ok ==> r->Ok_0 == event_for(*source, script_value(*output)->0),
            r is Err ==> r->Err_0 is UserConfigExecutionError,
            command_text(*output) is Some && unsigned_value(command_text(*output)->0, 255) is None
                ==> (r matches Err(Error::UserConfigExecutionError(m)) && m@
                == "the command output is not a number from 0 to 255: "@ + command_text(
                *output,
            )->0),
    {
        let text = match command_stdout_text(output) {
            Some(t) => t,
            None => {
                return Err(
                    Error::UserConfigExecutionError(
                        String::from_str("the command failed or printed no UTF-8 text"),
                    ),
                );
            },
        };
        match parse_u8(text.as_str()) {
            Some(v) => Ok(Event::Send { command_id: source.command_id, command_data: v }),
            None => {
                let mut msg = String::from_str("the command output is not a number from 0 to 255: ");
                msg.append(text.as_str());
                Err(Error::UserConfigExecutionError(msg))
            },
        }
    }

    /// The process id of the focused window, from the output of the query
    /// that asks for it.
    pub fn parse_window_pid(output: &CommandOutput) -> (r: Result<usize, Error>)
        ensures
            r is Ok <==> command_text(*output) is Some && unsigned_value(
                command_text(*output)->0,
                usize::MAX as int,
            ) is Some,
            r is Ok ==> r->Ok_0 as int == unsigned_value(
                command_text(*output)->0,
                usize::MAX as int,
            )->0,
            r is Err ==> r->Err_0 is CannotGetCurrentProgram,
    {
        let text = match command_stdout_text(output) {
            Some(t) => t,
            None => {
                return Err(Error::CannotGetCurrentProgram);
            },
        };
        match parse_unsigned(text.as_str(), usize::MAX as u64) {
            Some(v) => Ok(v as usize),
            None => Err(Error::CannotGetCurrentProgram),
        }
    }

    /// The executable of a process, from the output of the command that
    /// prints its command line: the first word of that text.
    pub fn program_binary(output: &CommandOutput) -> (r: Result<String, Error>)
        ensures
            r is Ok <==> command_text(*output) is Some,
            r is Ok ==> r->Ok_0@ == first_word(command_text(*output)->0),
            r is Err ==> r->Err_0 is CannotGetCurrentProgram,
    {
        match command_stdout_text(output) {
            Some(t) => Ok(first_word_of(t.as_str())),
            None => Err(Error::CannotGetCurrentProgram),
        }
    }

    /// The title of the focused window, from the output of the query that
    /// asks for it.
    pub fn window_name(output: &CommandOutput) -> (r: Result<String, Error>)
        ensures
            r is Ok <==> command_text(*output) is Some,
            r is Ok ==> r->Ok_0@ == command_text(*output)->0,
            r is Err ==> r->Err_0 is CannotGetCurrentProgram,
    {
        match command_stdout_text(output) {
            Some(t) => Ok(t),
            None => Err(Error::CannotGetCurrentProgram),
        }
    }
}

} // verus!
