//! Wave data, its validation, and the director that sequences waves.
//!
//! A wave's records arrive as plain raw fields — an absent or
//! out-of-range field means the human-edited dataset is broken, and the
//! wave fails to load rather than being silently defaulted. A loaded wave
//! holds an ordered queue of body definitions, consumed from the end
//! (stack order), and an enemy count. The director owns the 1-based wave
//! index, which rises by exactly one per wave constructed.

use vstd::prelude::*;

use crate::meteor::MeteorDefinition;
use crate::meteor::MAX_METEOR_LEVEL;
use crate::meteor::MAX_SPEED;
use crate::meteor::MAX_WEIGHT;

verus! {

/// One body definition as read from the dataset, before validation:
/// a field whose value is absent or of the wrong shape arrives as `None`.
#[derive(Clone, Copy, PartialEq, Eq, Debug)]
pub struct RawMeteorEntry {
    pub weight: Option<i64>,
    /// Smallest initial speed component, in milli steps.
    pub speed_min: Option<i64>,
    /// Largest initial speed component, in milli steps.
    pub speed_max: Option<i64>,
    pub kind: Option<i64>,
    pub level: Option<i64>,
}

/// One wave's record as read from the dataset, before validation.
#[derive(Clone, PartialEq, Eq, Debug)]
pub struct RawWaveRecord {
    pub meteors: Option<Vec<RawMeteorEntry>>,
    pub enemies: Option<i64>,
}

/// Why a wave failed to load.
#[derive(Clone, Copy, PartialEq, Eq, Structural, Debug)]
pub enum WaveError {
    /// The dataset has no record at the requested wave index.
    WaveNotFound,
    /// A required field is absent or of the wrong shape.
    MissingField,
    /// A field is present but its value is outside what the rules accept.
    InvalidValue,
}

/// Whether every field of an entry is present.
pub open spec fn entry_fields_present(e: RawMeteorEntry) -> bool {
    &&& e.weight is Some
    &&& e.speed_min is Some
    &&& e.speed_max is Some
    &&& e.kind is Some
    &&& e.level is Some
}

/// Whether the present fields carry values the spawn rules accept.
pub open spec fn entry_values_valid(e: RawMeteorEntry) -> bool {
    &&& 0 <= e.weight->0 <= MAX_WEIGHT
    &&& 0 <= e.speed_min->0 <= e.speed_max->0 <= MAX_SPEED
    &&& 0 <= e.kind->0 <= 255
    &&& 1 <= e.level->0 <= MAX_METEOR_LEVEL
}

/// A loadable entry.
pub open spec fn entry_valid(e: RawMeteorEntry) -> bool {
    entry_fields_present(e) && entry_values_valid(e)
}

/// The definition a valid entry denotes.
pub open spec fn entry_def(e: RawMeteorEntry) -> MeteorDefinition {
    MeteorDefinition {
        weight: e.weight->0,
        speed_min: e.speed_min->0,
        speed_max: e.speed_max->0,
        kind: e.kind->0 as u8,
        level: e.level->0 as u8,
    }
}

/// Which error a broken entry raises: a missing field outranks a bad
/// value.
pub open spec fn entry_error(e: RawMeteorEntry) -> WaveError {
    if !entry_fields_present(e) {
        WaveError::MissingField
    } else {
        WaveError::InvalidValue
    }
}

/// Validate one entry: exactly the valid entries load, and a broken one
/// reports whether a field was missing or merely out of range.
pub fn parse_meteor_entry(e: &RawMeteorEntry) -> (r: Result<MeteorDefinition, WaveError>)
    ensures
        entry_valid(*e) ==> r == Ok::<MeteorDefinition, WaveError>(entry_def(*e)),
        !entry_valid(*e) ==> r == Err::<MeteorDefinition, WaveError>(entry_error(*e)),
        r is Ok ==> (r->Ok_0).wf(),
{
    let (weight, speed_min, speed_max, kind, level) = match (
        e.weight,
        e.speed_min,
        e.speed_max,
        e.kind,
        e.level,
    ) {
        (Some(w), Some(smin), Some(smax), Some(k), Some(l)) => (w, smin, smax, k, l),
        _ => {
            return Err(WaveError::MissingField);
        },
    };
    if !(0 <= weight && weight <= MAX_WEIGHT) {
        return Err(WaveError::InvalidValue);
    }
    if !(0 <= speed_min && speed_min <= speed_max && speed_max <= MAX_SPEED) {
        return Err(WaveError::InvalidValue);
    }
    if !(0 <= kind && kind <= 255) {
        return Err(WaveError::InvalidValue);
    }
    if !(1 <= level && level <= MAX_METEOR_LEVEL as i64) {
        return Err(WaveError::InvalidValue);
    }
    Ok(
        MeteorDefinition {
            weight,
            speed_min,
            speed_max,
            kind: kind as u8,
            level: level as u8,
        },
    )
}

/// The outcome of validating the first `i` entries: the definitions in
/// order, or the first entry's error.
pub open spec fn parse_entries_upto(entries: Seq<RawMeteorEntry>, i: int) -> Result<
    Seq<MeteorDefinition>,
    WaveError,
>
    decreases i,
{
    if i <= 0 {
        Ok(Seq::empty())
    } else {
        match parse_entries_upto(entries, i - 1) {
            Err(err) => Err(err),
            Ok(s) => {
                if entry_valid(entries[i - 1]) {
                    Ok(s.push(entry_def(entries[i - 1])))
                } else {
                    Err(entry_error(entries[i - 1]))
                }
            },
        }
    }
}

/// The outcome of validating a whole entry list.
pub open spec fn parse_entries(entries: Seq<RawMeteorEntry>) -> Result<
    Seq<MeteorDefinition>,
    WaveError,
> {
    parse_entries_upto(entries, entries.len() as int)
}

/// A list that has already failed keeps its error whatever follows.
proof fn lemma_parse_entries_error_persists(entries: Seq<RawMeteorEntry>, i: int, j: int)
    requires
        0 <= i <= j,
        parse_entries_upto(entries, i) is Err,
    ensures
        parse_entries_upto(entries, j) == parse_entries_upto(entries, i),
    decreases j - i,
{
    if j > i {
        lemma_parse_entries_error_persists(entries, i, j - 1);
    }
}

/// Validate an entry list in order, stopping at the first broken entry.
pub fn parse_meteor_entries(entries: &Vec<RawMeteorEntry>) -> (r: Result<
    Vec<MeteorDefinition>,
    WaveError,
>)
    ensures
        ({
            let sp = parse_entries(entries@);
            match r {
                Ok(defs) => sp == Ok::<Seq<MeteorDefinition>, WaveError>(defs@),
                Err(err) => sp == Err::<Seq<MeteorDefinition>, WaveError>(err),
            }
        }),
        r matches Ok(defs) ==> forall|j: int| 0 <= j < defs@.len() ==> (#[trigger] defs@[j]).wf(),
{
    let mut out: Vec<MeteorDefinition> = Vec::new();
    let n = entries.len();
    let mut i: usize = 0;
    while i < n
        invariant
            i <= n,
            n == entries@.len(),
            parse_entries_upto(entries@, i as int) == Ok::<Seq<MeteorDefinition>, WaveError>(out@),
            forall|j: int| 0 <= j < out@.len() ==> (#[trigger] out@[j]).wf(),
        decreases n - i,
    {
        match parse_meteor_entry(&entries[i]) {
            Ok(def) => {
                out.push(def);
            },
            Err(err) => {
                proof {
                    lemma_parse_entries_error_persists(entries@, i as int + 1, n as int);
                }
                return Err(err);
            },
        }
        i = i + 1;
    }
    Ok(out)
}

/// Whether a record loads: both fields present, the enemy count within
/// its machine type, every entry valid.
pub open spec fn record_valid(rec: RawWaveRecord) -> bool {
    &&& rec.meteors is Some
    &&& rec.enemies is Some
    &&& i32::MIN <= rec.enemies->0 <= i32::MAX
    &&& parse_entries((rec.meteors->0)@) is Ok
}

/// Which error a broken record raises: missing fields first, then the
/// enemy count's range, then the first broken entry.
pub open spec fn record_error(rec: RawWaveRecord) -> WaveError {
    if rec.meteors is None || rec.enemies is None {
        WaveError::MissingField
    } else if !(i32::MIN <= rec.enemies->0 <= i32::MAX) {
        WaveError::InvalidValue
    } else {
        match parse_entries((rec.meteors->0)@) {
            Err(err) => err,
            Ok(_) => WaveError::InvalidValue,
        }
    }
}

/// Validate one wave record into its definition list and enemy count.
pub fn parse_wave_record(rec: &RawWaveRecord) -> (r: Result<(Vec<MeteorDefinition>, i32), WaveError>)
    ensures
        r is Ok <==> record_valid(*rec),
        r matches Ok((defs, enemies)) ==> parse_entries((rec.meteors->0)@) == Ok::<
            Seq<MeteorDefinition>,
            WaveError,
        >(defs@) && enemies == rec.enemies->0 && (forall|j: int|
            0 <= j < defs@.len() ==> (#[trigger] defs@[j]).wf()),
        r matches Err(err) ==> err == record_error(*rec),
{
    let enemies_raw = match rec.enemies {
        Some(v) => v,
        None => {
            return Err(WaveError::MissingField);
        },
    };
    let entries = match &rec.meteors {
        Some(v) => v,
        None => {
            return Err(WaveError::MissingField);
        },
    };
    if enemies_raw < i32::MIN as i64 || enemies_raw > i32::MAX as i64 {
        return Err(WaveError::InvalidValue);
    }
    let defs = match parse_meteor_entries(entries) {
        Ok(defs) => defs,
        Err(err) => {
            return Err(err);
        },
    };
    Ok((defs, enemies_raw as i32))
}

/// One wave's live state: the pending body definitions, consumed from
/// the end, and how many enemies the wave brings.
#[derive(Clone, PartialEq, Eq, Debug)]
pub struct Wave {
    pub meteors: Vec<MeteorDefinition>,
    pub enemies: i32,
}

impl Wave {
    /// A wave from an already validated definition list.
    pub fn new(meteors: Vec<MeteorDefinition>, enemies: i32) -> (w: Wave)
        ensures
            w.meteors@ == meteors@,
            w.enemies == enemies,
    {
        Wave { meteors, enemies }
    }

    /// Whether any body is still pending: false exactly when the queue is
    /// empty.
    pub fn has_meteors(&self) -> (r: bool)
        ensures
            r <==> self.meteors@.len() > 0,
    {
        !self.meteors.is_empty()
    }

    /// The pending definitions, most recently listed last.
    pub fn get_meteors(&self) -> (r: &Vec<MeteorDefinition>)
        ensures
            r@ == self.meteors@,
    {
        &self.meteors
    }

    /// How many enemies the wave brings.
    pub fn get_enemies(&self) -> (r: i32)
        ensures
            r == self.enemies,
    {
        self.enemies
    }

    /// Remove and return the definition at the end of the queue — the
    /// most recently listed spawns first — or nothing when the queue is
    /// empty. One call shortens a non-empty queue by exactly one.
    pub fn take_next_meteor(&mut self) -> (r: Option<MeteorDefinition>)
        ensures
            final(self).enemies == old(self).enemies,
            old(self).meteors@.len() == 0 ==> r is None && final(self).meteors@ == old(self).meteors@,
            old(self).meteors@.len() > 0 ==> r == Some(old(self).meteors@.last())
                && final(self).meteors@ == old(self).meteors@.drop_last(),
    {
        self.meteors.pop()
    }
}

/// The single owner of wave progression: holds the 1-based index of the
/// next wave to load.
pub struct WaveDirector {
    pub next_wave_index: u64,
}

impl WaveDirector {
    /// Wave counting starts at 1.
    pub fn new() -> (d: WaveDirector)
        ensures
            d.next_wave_index == 1,
    {
        WaveDirector { next_wave_index: 1 }
    }

    /// The index the next wave will load from.
    pub fn wave_count(&self) -> (r: u64)
        ensures
            r == self.next_wave_index,
    {
        self.next_wave_index
    }

    /// Load the wave at the current index from the dataset. Constructing
    /// a wave — and only constructing one — moves the index up by exactly
    /// one; a dataset without that record, or with a broken one, is a
    /// fatal configuration error and leaves the director unmoved.
    pub fn activate(&mut self, records: &Vec<RawWaveRecord>) -> (r: Result<Wave, WaveError>)
        requires
            old(self).next_wave_index < u64::MAX,
        ensures
            ({
                let idx = old(self).next_wave_index as int;
                let in_range = 1 <= idx <= records@.len();
                &&& (r is Ok <==> in_range && record_valid(records@[idx - 1]))
                &&& !in_range ==> r == Err::<Wave, WaveError>(WaveError::WaveNotFound)
                &&& (in_range && !record_valid(records@[idx - 1])) ==> r == Err::<
                    Wave,
                    WaveError,
                >(record_error(records@[idx - 1]))
                &&& r matches Ok(w) ==> {
                    &&& final(self).next_wave_index == old(self).next_wave_index + 1
                    &&& parse_entries((records@[idx - 1].meteors->0)@) == Ok::<
                        Seq<MeteorDefinition>,
                        WaveError,
                    >(w.meteors@)
                    &&& w.enemies == records@[idx - 1].enemies->0
                }
                &&& r is Err ==> *final(self) == *old(self)
            }),
    {
        let idx = self.next_wave_index;
        if idx < 1 || idx > (records.len() as u64) {
            return Err(WaveError::WaveNotFound);
        }
        let rec = &records[(idx - 1) as usize];
        match parse_wave_record(rec) {
            Ok((defs, enemies)) => {
                self.next_wave_index = self.next_wave_index + 1;
                Ok(Wave::new(defs, enemies))
            },
            Err(err) => Err(err),
        }
    }
}

} // verus!
