use crate::event_source::{rules_view, UserEventConfig, UserEventSourceKind};
use vstd::prelude::*;

verus! {

/// The log level used when the configuration names none.
pub fn default_log_level() -> (r: String)
    ensures
        r@ == "info"@,
{
    String::from_str("info")
}

/// Runs talk to a device unless the configuration asks for debug mode.
pub fn default_debug_mode() -> (r: bool)
    ensures
        r == false,
{
    false
}

/// The HID usage of the raw interface of a QMK keyboard.
pub fn default_usage() -> (r: u16)
    ensures
        r == 0x61,
{
    0x61
}

/// The HID usage page of the raw interface of a QMK keyboard.
pub fn default_usage_page() -> (r: u16)
    ensures
        r == 0xFF60,
{
    0xFF60
}

/// One device to try: a device matches when all four identifiers are equal.
#[derive(Clone, Copy, Debug, PartialEq, Eq, Structural)]
pub struct KeyboardConfig {
    pub vendor_id: u16,
    pub product_id: u16,
    pub usage: u16,
    pub usage_page: u16,
}

/// The settings of the program-presence poller.
#[derive(Clone, Debug)]
pub struct CurrentProgramConfig {
    pub enable: bool,
    pub command_id: u8,
    pub interval_seconds: u16,
    pub default_value: u8,
    /// Rules in the order they are tried.
    pub mappings: Vec<CurrentProgramMapping>,
    pub use_lowercase: bool,
}

/// One rule: a window whose title or executable contains `key` sends `value`.
#[derive(Clone, Debug)]
pub struct CurrentProgramMapping {
    pub key: String,
    pub value: u8,
}

/// The settings of one script poller.
#[derive(Clone, Debug)]
pub struct CustomCommandConfig {
    pub command: String,
    pub command_id: u8,
    pub interval_seconds: u16,
}

/// The whole configuration of a run.
#[derive(Clone, Debug)]
pub struct Config {
    pub log_level: String,
    pub debug_mode: bool,
    /// A single device; when given, it is the only one tried.
    pub keyboard: Option<KeyboardConfig>,
    /// Devices tried in order when no single one is given.
    pub keyboards: Vec<KeyboardConfig>,
    pub current_program: CurrentProgramConfig,
    pub custom_commands: Vec<CustomCommandConfig>,
}

/// The configured rules as `(pattern, value)` pairs.
pub open spec fn mapping_rules(m: Seq<CurrentProgramMapping>) -> Seq<(Seq<char>, u8)> {
    m.map_values(|r: CurrentProgramMapping| (r.key@, r.value))
}

/// `p` is the program-presence poller that `c` describes.
pub open spec fn is_program_poller(p: UserEventConfig, c: CurrentProgramConfig) -> bool {
    &&& p.command_id == c.command_id
    &&& p.interval_seconds == c.interval_seconds
    &&& match p.kind {
        UserEventSourceKind::CurrentProgram { mappings, default_value, use_lowercase } => {
            &&& rules_view(mappings@) == mapping_rules(c.mappings@)
            &&& default_value == c.default_value
            &&& use_lowercase == c.use_lowercase
        },
        UserEventSourceKind::UserDefined { .. } => false,
    }
}

/// `p` is the script poller that `c` describes.
pub open spec fn is_script_poller(p: UserEventConfig, c: CustomCommandConfig) -> bool {
    &&& p.command_id == c.command_id
    &&& p.interval_seconds == c.interval_seconds
    &&& match p.kind {
        UserEventSourceKind::UserDefined { command } => command@ == c.command@,
        UserEventSourceKind::CurrentProgram { .. } => false,
    }
}

/// The rules of `mappings` as pairs, in the same order.
fn mapping_pairs(mappings: &Vec<CurrentProgramMapping>) -> (r: Vec<(String, u8)>)
    ensures
        rules_view(r@) == mapping_rules(mappings@),
{
    let mut out: Vec<(String, u8)> = Vec::new();
    let mut i: usize = 0;
    while i < mappings.len()
        invariant
            i <= mappings@.len(),
            out@.len() == i,
            forall|k: int|
                0 <= k < i ==> (#[trigger] out@[k]).0@ == mappings@[k].key@ && out@[k].1
                    == mappings@[k].value,
        decreases mappings@.len() - i,
    {
        out.push((mappings[i].key.clone(), mappings[i].value));
        i = i + 1;
    }
    assert(rules_view(out@) =~= mapping_rules(mappings@));
    out
}

impl Config {
    /// The pollers of this configuration: the program-presence poller first
    /// when it is enabled, then one script poller per custom command, in
    /// order.
    pub fn poller_specs(&self) -> (r: Vec<UserEventConfig>)
        ensures
            ({
                let off: int = if self.current_program.enable {
                    1
                } else {
                    0
                };
                &&& r@.len() == off + self.custom_commands@.len()
                &&& self.current_program.enable ==> is_program_poller(
                    r@[0],
                    self.current_program,
                )
                &&& forall|k: int|
                    0 <= k < self.custom_commands@.len() ==> is_script_poller(
                        #[trigger] r@[off + k],
                        self.custom_commands@[k],
                    )
            }),
    {
        let mut out: Vec<UserEventConfig> = Vec::new();
        let cp = &self.current_program;
        if cp.enable {
            out.push(
                UserEventConfig {
                    interval_seconds: cp.interval_seconds as u64,
                    kind: UserEventSourceKind::CurrentProgram {
                        mappings: mapping_pairs(&cp.mappings),
                        default_value: cp.default_value,
                        use_lowercase: cp.use_lowercase,
                    },
                    command_id: cp.command_id,
                },
            );
        }
        let ghost off: int = out@.len() as int;
        let mut i: usize = 0;
        while i < self.custom_commands.len()
            invariant
                i <= self.custom_commands@.len(),
                off == (if self.current_program.enable {
                    1int
                } else {
                    0int
                }),
                out@.len() == off + i,
                self.current_program.enable ==> is_program_poller(out@[0], self.current_program),
                forall|k: int|
                    0 <= k < i ==> is_script_poller(
                        #[trigger] out@[off + k],
                        self.custom_commands@[k],
                    ),
            decreases self.custom_commands@.len() - i,
        {
            let c = &self.custom_commands[i];
            out.push(
                UserEventConfig {
                    interval_seconds: c.interval_seconds as u64,
                    kind: UserEventSourceKind::UserDefined { command: c.command.clone() },
                    command_id: c.command_id,
                },
            );
            i = i + 1;
        }
        out
    }

    /// The devices to try, in order: the single configured device when there
    /// is one, else the configured list.
    pub fn candidates(&self) -> (r: Vec<KeyboardConfig>)
        ensures
            self.keyboard matches Some(k) ==> r@ == seq![k],
            self.keyboard is None ==> r@ == self.keyboards@,
    {
        match self.keyboard {
            Some(k) => {
                let mut v: Vec<KeyboardConfig> = Vec::new();
                v.push(k);
                v
            },
            None => {
                let mut v: Vec<KeyboardConfig> = Vec::new();
                let mut i: usize = 0;
                while i < self.keyboards.len()
                    invariant
                        i <= self.keyboards@.len(),
                        v@ == self.keyboards@.subrange(0, i as int),
                    decreases self.keyboards@.len() - i,
                {
                    v.push(self.keyboards[i]);
                    i = i + 1;
                }
                assert(self.keyboards@.subrange(0, self.keyboards@.len() as int) =~= self.keyboards@);
                v
            },
        }
    }
}

} // verus!
