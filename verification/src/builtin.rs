//! Resources that are built into the library: a schema-checked template mod
//! and the validators of the built-in note converter and of an example
//! four-operator FM instrument.

use crate::resource::{DataKind, Mod, ModData, ModDataView, Resource, StringError};
use crate::text::{decimal_of, decimal_of_int, format_i64, format_usize};
use crate::types::{Note, ReadyNote, Sound, SoundView};
use crate::values::{
    is_f64_number, is_i64_number, int_of, value_as_bool, value_as_i64, value_is_f64, value_is_i64,
    value_kind, kind_of_value, ResConfig, ResState, ValueKind,
};
use vstd::prelude::*;

verus! {

use vstd::string::StringExecFns;

/// Position `d` is the first place where the type tags of `given` deviate
/// from those of `reference`.
pub open spec fn is_first_deviation(
    reference: Seq<serde_json::Value>,
    given: Seq<serde_json::Value>,
    d: int,
) -> bool {
    &&& 0 <= d < reference.len()
    &&& d < given.len()
    &&& value_kind(reference[d]) != value_kind(given[d])
    &&& forall|j: int|
        0 <= j < d ==> value_kind(#[trigger] reference[j]) == value_kind(given[j])
}

/// The type tags of `given` deviate somewhere from those of `reference`.
pub open spec fn has_deviation(
    reference: Seq<serde_json::Value>,
    given: Seq<serde_json::Value>,
) -> bool {
    exists|d: int| is_first_deviation(reference, given, d)
}

/// The first place where the type tags of `given` deviate from those of
/// `reference`.
pub open spec fn the_deviation(
    reference: Seq<serde_json::Value>,
    given: Seq<serde_json::Value>,
) -> int {
    choose|d: int| is_first_deviation(reference, given, d)
}

/// There is at most one first deviation.
proof fn lemma_first_deviation_unique(
    reference: Seq<serde_json::Value>,
    given: Seq<serde_json::Value>,
    d: int,
)
    requires
        is_first_deviation(reference, given, d),
    ensures
        the_deviation(reference, given) == d,
{
    let d2 = the_deviation(reference, given);
    assert(is_first_deviation(reference, given, d2));
    if d2 < d {
        assert(value_kind(reference[d2]) == value_kind(given[d2]));
    } else if d < d2 {
        assert(value_kind(reference[d]) == value_kind(given[d]));
    }
}

/// A configuration is accepted by a schema when it has the schema's length
/// and the type tag of every element agrees with the schema's tag at the
/// same position.  Literal values are irrelevant.
pub open spec fn schema_accepts(
    schema: Seq<serde_json::Value>,
    conf: Seq<serde_json::Value>,
) -> bool {
    schema.len() == conf.len() && !has_deviation(schema, conf)
}

/// The message reported when a configuration is rejected: the first
/// mismatched position, or the length mismatch.
pub open spec fn schema_err_msg(
    schema: Seq<serde_json::Value>,
    conf: Seq<serde_json::Value>,
) -> Seq<char> {
    if has_deviation(schema, conf) {
        "type mismatch at index "@ + decimal_of(the_deviation(schema, conf))
    } else {
        "length mismatch: expected "@ + decimal_of(schema.len() as int) + ", got "@ + decimal_of(
            conf.len() as int,
        )
    }
}

/// Check a configuration against a schema, element by element: the type tag
/// of each value must equal the tag at the same position in the schema.
/// Fails at the first mismatched position, or on a length mismatch.
pub fn check_against_schema(schema: &ResConfig, conf: &ResConfig) -> (r: Result<(), StringError>)
    ensures
        (r is Ok) == schema_accepts(schema@, conf@),
        r matches Err(e) ==> e.0@ == schema_err_msg(schema@, conf@),
{
    let n = if schema.len() < conf.len() {
        schema.len()
    } else {
        conf.len()
    };
    let mut i: usize = 0;
    while i < n
        invariant
            n <= schema@.len(),
            n <= conf@.len(),
            n == if schema@.len() < conf@.len() {
                schema@.len()
            } else {
                conf@.len()
            },
            i <= n,
            forall|j: int|
                0 <= j < i ==> value_kind(#[trigger] schema@[j]) == value_kind(conf@[j]),
        decreases n - i,
    {
        if kind_of_value(schema.get(i)) != kind_of_value(conf.get(i)) {
            proof {
                assert(is_first_deviation(schema@, conf@, i as int));
                lemma_first_deviation_unique(schema@, conf@, i as int);
            }
            let mut m: String = "type mismatch at index ".to_owned();
            proof {
                reveal_strlit("type mismatch at index ");
            }
            m.append(format_usize(i).as_str());
            return Err(StringError(m));
        }
        i = i + 1;
    }
    proof {
        assert(!has_deviation(schema@, conf@)) by {
            if has_deviation(schema@, conf@) {
                let d = the_deviation(schema@, conf@);
                assert(is_first_deviation(schema@, conf@, d));
            }
        }
    }
    if schema.len() != conf.len() {
        let mut m: String = "length mismatch: expected ".to_owned();
        proof {
            reveal_strlit("length mismatch: expected ");
            reveal_strlit(", got ");
        }
        m.append(format_usize(schema.len()).as_str());
        m.append(", got ");
        m.append(format_usize(conf.len()).as_str());
        return Err(StringError(m));
    }
    Ok(())
}

/// A JSON number holding an integer within the given bounds.
pub open spec fn int_in_range(v: serde_json::Value, lower: i64, upper: i64) -> bool {
    is_i64_number(v) && lower <= int_of(v) <= upper
}

/// The message [`get_int_value`] reports for a value that is not an integer
/// in the given bounds.
pub open spec fn int_err_msg(v: serde_json::Value, lower: i64, upper: i64) -> Seq<char> {
    if !is_i64_number(v) {
        "extracted value is not integer"@
    } else {
        "value "@ + decimal_of_int(int_of(v) as int) + " is outside of range "@ + decimal_of_int(
            lower as int,
        ) + " - "@ + decimal_of_int(upper as int)
    }
}

/// Extract an integer within `[lower, upper]` from a JSON value.
pub fn get_int_value(val: &serde_json::Value, lower: i64, upper: i64) -> (r: Result<
    i64,
    StringError,
>)
    ensures
        (r is Ok) == int_in_range(*val, lower, upper),
        r matches Ok(x) ==> x == int_of(*val),
        r matches Err(e) ==> e.0@ == int_err_msg(*val, lower, upper),
{
    match value_as_i64(val) {
        Some(x) => {
            if x < lower || x > upper {
                let mut m: String = "value ".to_owned();
                proof {
                    reveal_strlit("value ");
                    reveal_strlit(" is outside of range ");
                    reveal_strlit(" - ");
                }
                m.append(format_i64(x).as_str());
                m.append(" is outside of range ");
                m.append(format_i64(lower).as_str());
                m.append(" - ");
                m.append(format_i64(upper).as_str());
                Err(StringError(m))
            } else {
                Ok(x)
            }
        },
        None => {
            proof {
                reveal_strlit("extracted value is not integer");
            }
            Err(StringError("extracted value is not integer".to_owned()))
        },
    }
}

/// Extract a boolean from a JSON value.
pub fn get_bool_value(val: &serde_json::Value) -> (r: Result<bool, StringError>)
    ensures
        (r is Ok) == (value_kind(*val) == ValueKind::Bool),
        r matches Ok(b) ==> b == crate::values::bool_of(*val),
        r matches Err(e) ==> e.0@ == "extracted value is not bool"@,
{
    match value_as_bool(val) {
        Some(b) => Ok(b),
        None => {
            proof {
                reveal_strlit("extracted value is not bool");
            }
            Err(StringError("extracted value is not bool".to_owned()))
        },
    }
}

/// The default value of a data variant: empty text, an unspecified note, a
/// zero-length rest, or an empty sound.
pub open spec fn default_data_view(k: DataKind) -> ModDataView {
    match k {
        DataKind::String => ModDataView::String(Seq::empty()),
        DataKind::Note => ModDataView::Note(
            Note { len: None, pitch: None, cents: 0i8, natural: false, velocity: 0u8 },
        ),
        DataKind::ReadyNote => ModDataView::ReadyNote(
            ReadyNote { len: 0u32, decay_time: 0u32, pitch: None, velocity: 0u8 },
        ),
        DataKind::Sound => ModDataView::Sound(SoundView { frames: Seq::empty(), rate: 0u32 }),
    }
}

/// The default value of a data variant, in executable code.
pub fn default_data(k: DataKind) -> (r: ModData)
    ensures
        r@ == default_data_view(k),
{
    match k {
        DataKind::String => ModData::String(String::new()),
        DataKind::Note => ModData::Note(
            Note { len: None, pitch: None, cents: 0, natural: false, velocity: 0 },
        ),
        DataKind::ReadyNote => ModData::ReadyNote(
            ReadyNote { len: 0, decay_time: 0, pitch: None, velocity: 0 },
        ),
        DataKind::Sound => ModData::Sound(Sound::new(Vec::new(), 0)),
    }
}

/// A template mod that is easy to initialise and use.
///
/// It carries its identity, a schema for its configuration, and freely
/// chosen input and output variants.  Applied to matching input it emits the
/// default value of its output variant and an empty state; it stands in
/// wherever a pipeline's shape matters more than its sound.
pub struct SimpleMod {
    /// Display name.
    pub name: String,
    /// Unique id.
    pub id: String,
    /// Description.
    pub desc: String,
    /// Schema its configurations are checked against.
    pub schema: ResConfig,
    /// The variant this mod consumes.
    pub input: DataKind,
    /// The variant this mod produces.
    pub output: DataKind,
}

impl SimpleMod {
    /// Create a new SimpleMod.
    pub fn new(
        name: String,
        id: String,
        desc: String,
        schema: ResConfig,
        input: DataKind,
        output: DataKind,
    ) -> (r: Self)
        ensures
            r.name@ == name@,
            r.id@ == id@,
            r.desc@ == desc@,
            r.schema@ == schema@,
            r.input == input,
            r.output == output,
    {
        SimpleMod { name, id, desc, schema, input, output }
    }
}

impl Resource for SimpleMod {
    open spec fn id_spec(&self) -> Seq<char> {
        self.id@
    }

    open spec fn config_ok(&self, conf: Seq<serde_json::Value>) -> bool {
        schema_accepts(self.schema@, conf)
    }

    open spec fn config_err_msg(&self, conf: Seq<serde_json::Value>) -> Seq<char> {
        schema_err_msg(self.schema@, conf)
    }

    open spec fn state_ok(&self, state: Seq<u8>) -> bool {
        true
    }

    fn orig_name(&self) -> Option<&str> {
        Some(self.name.as_str())
    }

    fn id(&self) -> (r: &str) {
        self.id.as_str()
    }

    fn check_config(&self, conf: &ResConfig) -> (r: Result<(), StringError>) {
        check_against_schema(&self.schema, conf)
    }

    fn check_state(&self, state: &ResState) -> (r: Option<()>) {
        Some(())
    }

    fn description(&self) -> &str {
        self.desc.as_str()
    }
}

impl Mod for SimpleMod {
    open spec fn input_type_spec(&self) -> DataKind {
        self.input
    }

    open spec fn output_type_spec(&self) -> DataKind {
        self.output
    }

    open spec fn apply_ok(
        &self,
        input: ModDataView,
        conf: Seq<serde_json::Value>,
        state: Seq<u8>,
    ) -> bool {
        input.kind() == self.input
    }

    open spec fn apply_out(
        &self,
        input: ModDataView,
        conf: Seq<serde_json::Value>,
        state: Seq<u8>,
    ) -> ModDataView {
        default_data_view(self.output)
    }

    open spec fn apply_state(
        &self,
        input: ModDataView,
        conf: Seq<serde_json::Value>,
        state: Seq<u8>,
    ) -> Seq<u8> {
        Seq::empty()
    }

    open spec fn apply_err_msg(
        &self,
        input: ModDataView,
        conf: Seq<serde_json::Value>,
        state: Seq<u8>,
    ) -> Seq<char> {
        "incorrect input type"@
    }

    fn apply(&self, input: &ModData, conf: &ResConfig, state: &ResState) -> (r: Result<
        (ModData, ResState),
        StringError,
    >) {
        if input.kind() != self.input {
            proof {
                reveal_strlit("incorrect input type");
            }
            Err(StringError("incorrect input type".to_owned()))
        } else {
            Ok((default_data(self.output), Vec::new()))
        }
    }

    fn input_type(&self) -> (k: DataKind) {
        self.input
    }

    fn output_type(&self) -> (k: DataKind) {
        self.output
    }
}

/// Validator of the built-in mod that prepares a note for playing.
///
/// The conversion from platform-defined ticks and semitones into seconds and
/// Hz is floating-point work and lives with the platform glue; what belongs
/// to the framework is this resource's identity and the exact shape of its
/// configuration: `[frequency of C-1, length of one tick, octave,
/// post-release length, added cents]`.
pub struct ConvertNote();

/// Whether `conf` configures the note converter: two floats, a non-negative
/// integer, and two integers.
pub open spec fn convert_note_config_ok(conf: Seq<serde_json::Value>) -> bool {
    &&& conf.len() == 5
    &&& is_f64_number(conf[0])
    &&& is_f64_number(conf[1])
    &&& is_i64_number(conf[2]) && int_of(conf[2]) >= 0
    &&& is_i64_number(conf[3])
    &&& is_i64_number(conf[4])
}

/// The message reported for a configuration the note converter rejects: the
/// first requirement that fails, in order.
pub open spec fn convert_note_err_msg(conf: Seq<serde_json::Value>) -> Seq<char> {
    if conf.len() != 5 {
        "incorrect config length"@
    } else if !is_f64_number(conf[0]) {
        "argument 1 (frequency of C-1) is not float"@
    } else if !is_f64_number(conf[1]) {
        "argument 2 (length of one tick) is not float"@
    } else if !(is_i64_number(conf[2]) && int_of(conf[2]) >= 0) {
        "argument 3 (octave) is not nonnegative integer"@
    } else if !is_i64_number(conf[3]) {
        "argument 4 (length of sound post key release) is not integer"@
    } else {
        "argument 5 (added cents) is not integer"@
    }
}

impl Resource for ConvertNote {
    open spec fn id_spec(&self) -> Seq<char> {
        "BUILTIN_CONVERT_NOTE"@
    }

    open spec fn config_ok(&self, conf: Seq<serde_json::Value>) -> bool {
        convert_note_config_ok(conf)
    }

    open spec fn config_err_msg(&self, conf: Seq<serde_json::Value>) -> Seq<char> {
        convert_note_err_msg(conf)
    }

    open spec fn state_ok(&self, state: Seq<u8>) -> bool {
        true
    }

    fn orig_name(&self) -> Option<&str> {
        Some("Prepare note for playing")
    }

    fn id(&self) -> (r: &str) {
        proof {
            reveal_strlit("BUILTIN_CONVERT_NOTE");
        }
        "BUILTIN_CONVERT_NOTE"
    }

    fn check_config(&self, conf: &ResConfig) -> (r: Result<(), StringError>) {
        proof {
            reveal_strlit("incorrect config length");
            reveal_strlit("argument 1 (frequency of C-1) is not float");
            reveal_strlit("argument 2 (length of one tick) is not float");
            reveal_strlit("argument 3 (octave) is not nonnegative integer");
            reveal_strlit("argument 4 (length of sound post key release) is not integer");
            reveal_strlit("argument 5 (added cents) is not integer");
        }
        if conf.len() != 5 {
            return Err(StringError("incorrect config length".to_owned()));
        }
        if !value_is_f64(conf.get(0)) {
            return Err(StringError("argument 1 (frequency of C-1) is not float".to_owned()));
        }
        if !value_is_f64(conf.get(1)) {
            return Err(StringError("argument 2 (length of one tick) is not float".to_owned()));
        }
        let octave_ok = match value_as_i64(conf.get(2)) {
            Some(x) => x >= 0,
            None => false,
        };
        if !octave_ok {
            return Err(StringError("argument 3 (octave) is not nonnegative integer".to_owned()));
        }
        if !value_is_i64(conf.get(3)) {
            return Err(
                StringError(
                    "argument 4 (length of sound post key release) is not integer".to_owned(),
                ),
            );
        }
        if !value_is_i64(conf.get(4)) {
            return Err(StringError("argument 5 (added cents) is not integer".to_owned()));
        }
        Ok(())
    }

    fn check_state(&self, state: &ResState) -> (r: Option<()>) {
        Some(())
    }

    fn description(&self) -> &str {
        "Built-in mod to prepare the note for playing"
    }
}

/// Lower bound of the integer at offset `j` within one operator's eight
/// configuration slots.
pub open spec fn fm_slot_lo(j: int) -> i64 {
    if j == 7 {
        -511i64
    } else {
        0i64
    }
}

/// Upper bound of the integer at offset `j` within one operator's eight
/// configuration slots: four rates, two levels, a multiplier and a detune.
pub open spec fn fm_slot_hi(j: int) -> i64 {
    if j <= 3 {
        511i64
    } else if j <= 5 {
        127i64
    } else if j == 6 {
        31i64
    } else {
        511i64
    }
}

/// Whether slot `i` of an FM configuration is acceptable: the algorithm
/// number, the sawtooth flag, then eight bounded integers per operator.
pub open spec fn fm_slot_ok(conf: Seq<serde_json::Value>, i: int) -> bool {
    if i == 0 {
        int_in_range(conf[0], 0, 7)
    } else if i == 1 {
        value_kind(conf[1]) == ValueKind::Bool
    } else {
        int_in_range(conf[i], fm_slot_lo((i - 2) % 8), fm_slot_hi((i - 2) % 8))
    }
}

/// Whether `conf` configures the FM instrument: 34 slots, each acceptable.
pub open spec fn fm_config_ok(conf: Seq<serde_json::Value>) -> bool {
    conf.len() == 34 && forall|i: int| 0 <= i < 34 ==> #[trigger] fm_slot_ok(conf, i)
}

/// Slot `d` is the first unacceptable slot of an FM configuration.
pub open spec fn fm_is_first_bad(conf: Seq<serde_json::Value>, d: int) -> bool {
    &&& 0 <= d < 34
    &&& !fm_slot_ok(conf, d)
    &&& forall|j: int| 0 <= j < d ==> #[trigger] fm_slot_ok(conf, j)
}

/// The first unacceptable slot of an FM configuration.
pub open spec fn fm_first_bad(conf: Seq<serde_json::Value>) -> int {
    choose|d: int| fm_is_first_bad(conf, d)
}

/// There is at most one first unacceptable slot.
proof fn lemma_fm_first_bad_unique(conf: Seq<serde_json::Value>, d: int)
    requires
        fm_is_first_bad(conf, d),
    ensures
        fm_first_bad(conf) == d,
{
    let d2 = fm_first_bad(conf);
    assert(fm_is_first_bad(conf, d2));
    if d2 < d {
        assert(fm_slot_ok(conf, d2));
    } else if d < d2 {
        assert(fm_slot_ok(conf, d));
    }
}

/// The message reported for slot `i` of a rejected FM configuration.
pub open spec fn fm_slot_err_msg(conf: Seq<serde_json::Value>, i: int) -> Seq<char> {
    if i == 0 {
        int_err_msg(conf[0], 0, 7)
    } else if i == 1 {
        "extracted value is not bool"@
    } else {
        int_err_msg(conf[i], fm_slot_lo((i - 2) % 8), fm_slot_hi((i - 2) % 8))
    }
}

/// The message reported for a rejected FM configuration: the wrong slot
/// count, or the first unacceptable slot.
pub open spec fn fm_err_msg(conf: Seq<serde_json::Value>) -> Seq<char> {
    if conf.len() != 34 {
        "wrong number of values: expected 34, got "@ + decimal_of(conf.len() as int)
    } else {
        fm_slot_err_msg(conf, fm_first_bad(conf))
    }
}

/// Validator of an example four-operator FM synthesizer.
///
/// The rendering itself is floating-point signal work and lives with the
/// platform glue; what belongs to the framework is the instrument's identity
/// and the exact shape of its configuration: an algorithm number, a sawtooth
/// flag, and eight bounded integers for each of the four operators.
pub struct FourOpFm();

/// Bounds of the integer at offset `j` within one operator's slots.
fn fm_bounds(j: usize) -> (r: (i64, i64))
    requires
        j < 8,
    ensures
        r.0 == fm_slot_lo(j as int),
        r.1 == fm_slot_hi(j as int),
{
    if j <= 3 {
        (0, 511)
    } else if j <= 5 {
        (0, 127)
    } else if j == 6 {
        (0, 31)
    } else {
        (-511, 511)
    }
}

impl Resource for FourOpFm {
    open spec fn id_spec(&self) -> Seq<char> {
        "FOUR_OPERATOR_FM"@
    }

    open spec fn config_ok(&self, conf: Seq<serde_json::Value>) -> bool {
        fm_config_ok(conf)
    }

    open spec fn config_err_msg(&self, conf: Seq<serde_json::Value>) -> Seq<char> {
        fm_err_msg(conf)
    }

    open spec fn state_ok(&self, state: Seq<u8>) -> bool {
        true
    }

    fn orig_name(&self) -> Option<&str> {
        Some("Simple FM")
    }

    fn id(&self) -> (r: &str) {
        proof {
            reveal_strlit("FOUR_OPERATOR_FM");
        }
        "FOUR_OPERATOR_FM"
    }

    fn check_config(&self, conf: &ResConfig) -> (r: Result<(), StringError>) {
        if conf.len() != 34 {
            let mut m: String = "wrong number of values: expected 34, got ".to_owned();
            proof {
                reveal_strlit("wrong number of values: expected 34, got ");
            }
            m.append(format_usize(conf.len()).as_str());
            return Err(StringError(m));
        }
        match get_int_value(conf.get(0), 0, 7) {
            Ok(_) => {},
            Err(e) => {
                proof {
                    assert(fm_is_first_bad(conf@, 0));
                    lemma_fm_first_bad_unique(conf@, 0);
                }
                return Err(e);
            },
        }
        match get_bool_value(conf.get(1)) {
            Ok(_) => {},
            Err(e) => {
                proof {
                    assert(fm_is_first_bad(conf@, 1)) by {
                        assert(fm_slot_ok(conf@, 0));
                    }
                    lemma_fm_first_bad_unique(conf@, 1);
                }
                return Err(e);
            },
        }
        let mut i: usize = 2;
        while i < 34
            invariant
                2 <= i <= 34,
                conf@.len() == 34,
                forall|j: int| 0 <= j < i ==> #[trigger] fm_slot_ok(conf@, j),
            decreases 34 - i,
        {
            let (lo, hi) = fm_bounds((i - 2) % 8);
            match get_int_value(conf.get(i), lo, hi) {
                Ok(_) => {
                    proof {
                        assert(fm_slot_ok(conf@, i as int));
                    }
                },
                Err(e) => {
                    proof {
                        assert(((i - 2) % 8) as int == (i as int - 2) % 8);
                        assert(fm_is_first_bad(conf@, i as int));
                        lemma_fm_first_bad_unique(conf@, i as int);
                    }
                    return Err(e);
                },
            }
            i = i + 1;
        }
        Ok(())
    }

    fn check_state(&self, state: &ResState) -> (r: Option<()>) {
        Some(())
    }

    fn description(&self) -> &str {
        "Simple four operator FM."
    }
}

} // verus!
