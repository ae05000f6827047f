use vstd::prelude::*;
use crate::door::DoorId;

verus! {

/// Pin assignment and classification threshold of one door.
#[derive(Clone, Copy, Debug, PartialEq, Eq, Structural)]
pub struct DoorConfig {
    /// Output driving the relay that presses the door's wall button.
    pub actuator_pin: u8,
    /// Output that starts an ultrasonic pulse.
    pub trigger_pin: u8,
    /// Input that goes high while the echo is received.
    pub echo_pin: u8,
    /// Distance in micrometres above which the door counts as open.
    pub open_threshold_um: u64,
}

/// A door together with its configuration.
#[derive(Clone, Copy, Debug, PartialEq, Eq, Structural)]
pub struct DoorEntry {
    pub door: DoorId,
    pub config: DoorConfig,
}

/// Why a set of door configurations was refused.
#[derive(Clone, Copy, Debug, PartialEq, Eq, Structural)]
pub enum ConfigError {
    /// Some door has a zero open threshold.
    NonPositiveThreshold,
    /// The same door is configured twice.
    DuplicateDoor,
    /// Two pin assignments coincide, within one door or across doors.
    SharedPin,
}

pub open spec fn uses_pin(c: DoorConfig, p: u8) -> bool {
    c.actuator_pin == p || c.trigger_pin == p || c.echo_pin == p
}

/// The three pins of one door are pairwise different.
pub open spec fn own_pins_distinct(c: DoorConfig) -> bool {
    c.actuator_pin != c.trigger_pin && c.actuator_pin != c.echo_pin && c.trigger_pin
        != c.echo_pin
}

/// No pin of `a` is a pin of `b`.
pub open spec fn pins_disjoint(a: DoorConfig, b: DoorConfig) -> bool {
    !uses_pin(b, a.actuator_pin) && !uses_pin(b, a.trigger_pin) && !uses_pin(b, a.echo_pin)
}

pub open spec fn thresholds_positive(s: Seq<DoorEntry>) -> bool {
    forall|i: int| 0 <= i < s.len() ==> s[i].config.open_threshold_um > 0
}

pub open spec fn doors_distinct(s: Seq<DoorEntry>) -> bool {
    forall|i: int, j: int| 0 <= i < s.len() && 0 <= j < s.len() && i != j ==> s[i].door != s[j].door
}

pub open spec fn pins_distinct(s: Seq<DoorEntry>) -> bool {
    &&& forall|i: int| 0 <= i < s.len() ==> own_pins_distinct(#[trigger] s[i].config)
    &&& forall|i: int, j: int|
        0 <= i < s.len() && 0 <= j < s.len() && i != j ==> pins_disjoint(
            s[i].config,
            s[j].config,
        )
}

/// A set of door configurations that the controller can run with.
pub open spec fn entries_valid(s: Seq<DoorEntry>) -> bool {
    thresholds_positive(s) && doors_distinct(s) && pins_distinct(s)
}

/// Whether `d` is configured in `s`.
pub open spec fn configures(s: Seq<DoorEntry>, d: DoorId) -> bool {
    exists|i: int| 0 <= i < s.len() && s[i].door == d
}

/// The validated, read-only set of configured doors.
pub struct Registry {
    entries: Vec<DoorEntry>,
}

fn has_unusable_threshold(entries: &Vec<DoorEntry>) -> (r: bool)
    ensures
        r == !thresholds_positive(entries@),
{
    let mut i: usize = 0;
    while i < entries.len()
        invariant
            i <= entries@.len(),
            forall|k: int| 0 <= k < i ==> entries@[k].config.open_threshold_um > 0,
        decreases entries@.len() - i,
    {
        if entries[i].config.open_threshold_um == 0 {
            return true;
        }
        i = i + 1;
    }
    false
}

fn has_duplicate_door(entries: &Vec<DoorEntry>) -> (r: bool)
    ensures
        r == !doors_distinct(entries@),
{
    let mut i: usize = 0;
    while i < entries.len()
        invariant
            i <= entries@.len(),
            forall|a: int, b: int|
                0 <= a < i && 0 <= b < i && a != b ==> entries@[a].door != entries@[b].door,
        decreases entries@.len() - i,
    {
        let mut j: usize = 0;
        while j < i
            invariant
                i < entries@.len(),
                j <= i,
                forall|a: int, b: int|
                    0 <= a < i && 0 <= b < i && a != b ==> entries@[a].door != entries@[b].door,
                forall|b: int| 0 <= b < j ==> entries@[i as int].door != entries@[b].door,
            decreases i - j,
        {
            if entries[i].door == entries[j].door {
                return true;
            }
            j = j + 1;
        }
        i = i + 1;
    }
    false
}

fn distinct_within(c: &DoorConfig) -> (r: bool)
    ensures
        r == own_pins_distinct(*c),
{
    c.actuator_pin != c.trigger_pin && c.actuator_pin != c.echo_pin && c.trigger_pin != c.echo_pin
}

fn uses(c: &DoorConfig, p: u8) -> (r: bool)
    ensures
        r == uses_pin(*c, p),
{
    c.actuator_pin == p || c.trigger_pin == p || c.echo_pin == p
}

fn disjoint(a: &DoorConfig, b: &DoorConfig) -> (r: bool)
    ensures
        r == pins_disjoint(*a, *b),
        r == pins_disjoint(*b, *a),
{
    !uses(b, a.actuator_pin) && !uses(b, a.trigger_pin) && !uses(b, a.echo_pin)
}

fn has_shared_pin(entries: &Vec<DoorEntry>) -> (r: bool)
    ensures
        r == !pins_distinct(entries@),
{
    let mut i: usize = 0;
    while i < entries.len()
        invariant
            i <= entries@.len(),
            forall|a: int| 0 <= a < i ==> own_pins_distinct(#[trigger] entries@[a].config),
            forall|a: int, b: int|
                0 <= a < i && 0 <= b < i && a != b ==> pins_disjoint(
                    entries@[a].config,
                    entries@[b].config,
                ),
        decreases entries@.len() - i,
    {
        if !distinct_within(&entries[i].config) {
            return true;
        }
        let mut j: usize = 0;
        while j < i
            invariant
                i < entries@.len(),
                j <= i,
                forall|a: int, b: int|
                    0 <= a < i && 0 <= b < i && a != b ==> pins_disjoint(
                        entries@[a].config,
                        entries@[b].config,
                    ),
                forall|b: int|
                    0 <= b < j ==> pins_disjoint(entries@[i as int].config, entries@[b].config)
                        && pins_disjoint(entries@[b].config, entries@[i as int].config),
            decreases i - j,
        {
            if !disjoint(&entries[i].config, &entries[j].config) {
                return true;
            }
            j = j + 1;
        }
        i = i + 1;
    }
    false
}

impl Registry {
    /// The configured doors, in the order they were given.
    pub closed spec fn view(&self) -> Seq<DoorEntry> {
        self.entries@
    }

    pub open spec fn wf(&self) -> bool {
        entries_valid(self@)
    }

    /// Validates a set of door configurations. Thresholds are checked first,
    /// then duplicate doors, then shared pins.
    pub fn new(entries: Vec<DoorEntry>) -> (r: Result<Registry, ConfigError>)
        ensures
            r is Ok <==> entries_valid(entries@),
            r matches Ok(reg) ==> reg@ == entries@ && reg.wf(),
            r == Err::<Registry, ConfigError>(ConfigError::NonPositiveThreshold) <==> !thresholds_positive(entries@),
            r == Err::<Registry, ConfigError>(ConfigError::DuplicateDoor) <==> thresholds_positive(entries@) && !doors_distinct(entries@),
            r == Err::<Registry, ConfigError>(ConfigError::SharedPin) <==> thresholds_positive(entries@) && doors_distinct(entries@)
                && !pins_distinct(entries@),
    {
        if has_unusable_threshold(&entries) {
            Err(ConfigError::NonPositiveThreshold)
        } else if has_duplicate_door(&entries) {
            Err(ConfigError::DuplicateDoor)
        } else if has_shared_pin(&entries) {
            Err(ConfigError::SharedPin)
        } else {
            Ok(Registry { entries })
        }
    }

    /// The three doors of the controller board as wired at installation.
    pub fn standard() -> (r: Registry)
        ensures
            r.wf(),
            r@.len() == 3,
            r@[0] == (DoorEntry { door: DoorId::Left, config: DoorConfig { actuator_pin: 16, trigger_pin: 17, echo_pin: 27, open_threshold_um: 120_000 } }),
            r@[1] == (DoorEntry { door: DoorId::Middle, config: DoorConfig { actuator_pin: 20, trigger_pin: 26, echo_pin: 19, open_threshold_um: 115_000 } }),
            r@[2] == (DoorEntry { door: DoorId::Right, config: DoorConfig { actuator_pin: 21, trigger_pin: 5, echo_pin: 6, open_threshold_um: 80_000 } }),
    {
        let entries = vec![
            DoorEntry {
                door: DoorId::Left,
                config: DoorConfig { actuator_pin: 16, trigger_pin: 17, echo_pin: 27, open_threshold_um: 120_000 },
            },
            DoorEntry {
                door: DoorId::Middle,
                config: DoorConfig { actuator_pin: 20, trigger_pin: 26, echo_pin: 19, open_threshold_um: 115_000 },
            },
            DoorEntry {
                door: DoorId::Right,
                config: DoorConfig { actuator_pin: 21, trigger_pin: 5, echo_pin: 6, open_threshold_um: 80_000 },
            },
        ];
        let r = Registry { entries };
        assert(r.wf());
        r
    }

    /// Number of configured doors.
    pub fn len(&self) -> (r: usize)
        ensures
            r == self@.len(),
    {
        self.entries.len()
    }

    /// The `i`-th configured door.
    pub fn entry(&self, i: usize) -> (r: DoorEntry)
        requires
            i < self@.len(),
        ensures
            r == self@[i as int],
    {
        self.entries[i]
    }

    /// The configuration of `d`, if it is configured.
    pub fn get(&self, d: DoorId) -> (r: Option<DoorConfig>)
        ensures
            r is None <==> !configures(self@, d),
            r matches Some(c) ==> exists|i: int|
                0 <= i < self@.len() && self@[i] == (DoorEntry { door: d, config: c }),
    {
        let mut i: usize = 0;
        while i < self.entries.len()
            invariant
                i <= self@.len(),
                self@ == self.entries@,
                forall|k: int| 0 <= k < i ==> self@[k].door != d,
            decreases self@.len() - i,
        {
            if self.entries[i].door == d {
                return Some(self.entries[i].config);
            }
            i = i + 1;
        }
        None
    }
}

} // verus!
