//! Builder for configurations that uses a schema.
//!
//! The builder holds a schema and an in-progress configuration.  It accepts
//! values one at a time or in batches, validates each against the next
//! schema slot, and becomes a finished configuration once full.  Feeding
//! more values after completion is an error; feeding fewer leaves it
//! unfinished.

use crate::values::{clone_value, is_container, kind_of_value, value_kind, JsonArray, ResConfig, ValueKind};
use vstd::prelude::*;

verus! {

/// Errors that [`ConfigBuilder`] can produce.
#[derive(Debug, Clone, Copy, PartialEq, Eq, Structural)]
pub enum ConfigBuilderError {
    /// The provided value's type does not match the type defined in the
    /// schema: position, expected tag, given tag.
    TypeMismatch(usize, ValueKind, ValueKind),
    /// An extra value was supplied to a configuration that is already fully
    /// built.
    ValueOutsideSchema,
}

/// State of [`ConfigBuilder`] in which the config is not fully built yet.
#[derive(Debug)]
pub struct ConfBuilding<'a> {
    /// Schema against which the configuration is being built.
    pub schema: &'a ResConfig,
    /// Configuration that is being built.
    pub config: ResConfig,
}

impl<'a> ConfBuilding<'a> {
    /// The schema is flat and the configuration has not outgrown it.
    pub open spec fn wf(&self) -> bool {
        self.schema.wf() && self.config@.len() <= self.schema@.len()
    }

    /// Start building against `schema`.
    pub fn new(schema: &'a ResConfig) -> (r: ConfBuilding<'a>)
        requires
            schema.wf(),
        ensures
            r.schema == schema,
            r.config@ == Seq::<serde_json::Value>::empty(),
            r.wf(),
    {
        ConfBuilding { schema, config: JsonArray::new() }
    }

    /// If the configuration is unfinished, check `value` against the next
    /// schema slot and append it; `Ok(true)` says the configuration is now
    /// full.
    pub fn append(&mut self, value: &serde_json::Value) -> (r: Result<bool, ConfigBuilderError>)
        requires
            old(self).wf(),
        ensures
            final(self).wf(),
            final(self).schema == old(self).schema,
            old(self).config@.len() == old(self).schema@.len() ==> r == Err::<
                bool,
                ConfigBuilderError,
            >(ConfigBuilderError::ValueOutsideSchema) && final(self).config@ == old(self).config@,
            old(self).config@.len() < old(self).schema@.len() && value_kind(
                old(self).schema@[old(self).config@.len() as int],
            ) != value_kind(*value) ==> r == Err::<bool, ConfigBuilderError>(
                ConfigBuilderError::TypeMismatch(
                    old(self).config@.len() as usize,
                    value_kind(old(self).schema@[old(self).config@.len() as int]),
                    value_kind(*value),
                ),
            ) && final(self).config@ == old(self).config@,
            old(self).config@.len() < old(self).schema@.len() && value_kind(
                old(self).schema@[old(self).config@.len() as int],
            ) == value_kind(*value) ==> final(self).config@ == old(self).config@.push(*value) && r
                == Ok::<bool, ConfigBuilderError>(
                final(self).config@.len() == final(self).schema@.len(),
            ),
    {
        if self.config.len() == self.schema.len() {
            return Err(ConfigBuilderError::ValueOutsideSchema);
        }
        let position = self.config.len();
        let current_type = kind_of_value(self.schema.get(position));
        let given_type = kind_of_value(value);
        if current_type != given_type {
            return Err(ConfigBuilderError::TypeMismatch(position, current_type, given_type));
        }
        proof {
            assert(!is_container(*value));
        }
        let _ = self.config.push(clone_value(value));
        if position == self.schema.len() - 1 {
            Ok(true)
        } else {
            Ok(false)
        }
    }
}

/// Configuration builder.
///
/// Validates every provided value, and the count of values, against the
/// schema, making sure that the types match.
#[derive(Debug)]
pub enum ConfigBuilder<'a> {
    /// Configuration is still being built.
    Builder(ConfBuilding<'a>),
    /// Configuration is fully built and can be used.
    Config(ResConfig),
}

/// What injecting a batch of values into a building configuration does:
/// how much of the batch is consumed, what the configuration holds
/// afterwards, whether it is now fully built, and the error that stopped it,
/// if one did.
pub struct InjectOutcome {
    /// The configuration contents after the call.
    pub config: Seq<serde_json::Value>,
    /// How many values were consumed.
    pub taken: int,
    /// The configuration became full and the builder finished.
    pub finished: bool,
    /// The error that stopped consumption, if any.
    pub error: Option<ConfigBuilderError>,
}

/// Inject values one at a time, left to right: stop when the values run out,
/// when the configuration becomes full, or at the first value whose type tag
/// does not match the next schema slot.
pub open spec fn inject_spec(
    schema: Seq<serde_json::Value>,
    config: Seq<serde_json::Value>,
    values: Seq<serde_json::Value>,
) -> InjectOutcome
    decreases values.len(),
{
    if values.len() == 0 {
        InjectOutcome { config, taken: 0, finished: false, error: None }
    } else if config.len() >= schema.len() {
        InjectOutcome {
            config,
            taken: 0,
            finished: false,
            error: Some(ConfigBuilderError::ValueOutsideSchema),
        }
    } else if value_kind(schema[config.len() as int]) != value_kind(values[0]) {
        InjectOutcome {
            config,
            taken: 0,
            finished: false,
            error: Some(
                ConfigBuilderError::TypeMismatch(
                    config.len() as usize,
                    value_kind(schema[config.len() as int]),
                    value_kind(values[0]),
                ),
            ),
        }
    } else {
        let appended = config.push(values[0]);
        if appended.len() == schema.len() {
            InjectOutcome { config: appended, taken: 1, finished: true, error: None }
        } else {
            let rest = inject_spec(schema, appended, values.drop_first());
            InjectOutcome {
                config: rest.config,
                taken: 1 + rest.taken,
                finished: rest.finished,
                error: rest.error,
            }
        }
    }
}

impl<'a> ConfigBuilder<'a> {
    /// The builder is in a sound state.
    pub open spec fn wf(&self) -> bool {
        match self {
            ConfigBuilder::Builder(b) => b.wf(),
            ConfigBuilder::Config(_) => true,
        }
    }

    /// Create a new config builder from the given schema.  An empty schema
    /// has nothing to wait for: the builder is born finished.
    pub fn new(schema: &'a ResConfig) -> (r: ConfigBuilder<'a>)
        requires
            schema.wf(),
        ensures
            r.wf(),
            schema@.len() == 0 ==> (r matches ConfigBuilder::Config(c) && c@ == Seq::<
                serde_json::Value,
            >::empty()),
            schema@.len() > 0 ==> (r matches ConfigBuilder::Builder(b) && b.schema == schema
                && b.config@ == Seq::<serde_json::Value>::empty()),
    {
        if schema.is_empty() {
            ConfigBuilder::Config(JsonArray::new())
        } else {
            ConfigBuilder::Builder(ConfBuilding::new(schema))
        }
    }

    /// Append items from `values` until the configuration is fully built,
    /// all items were used, or an error occurs; returns how many items were
    /// consumed.  Items beyond what the schema needs are left unused, and a
    /// shorter batch leaves the builder unfinished.
    ///
    /// Appending to an already finished configuration fails with
    /// [`ConfigBuilderError::ValueOutsideSchema`]; a value of the wrong type
    /// fails with [`ConfigBuilderError::TypeMismatch`], and everything
    /// before it remains in the configuration.
    pub fn inject(&mut self, values: &[serde_json::Value]) -> (r: Result<
        usize,
        ConfigBuilderError,
    >)
        requires
            old(self).wf(),
        ensures
            final(self).wf(),
            (*old(self)) matches ConfigBuilder::Config(c) ==> ((*final(self)) matches ConfigBuilder::Config(d)
                && d@ == c@ && r == Err::<usize, ConfigBuilderError>(
                ConfigBuilderError::ValueOutsideSchema,
            )),
            (*old(self)) matches ConfigBuilder::Builder(b) ==> ({
                let o = inject_spec(b.schema@, b.config@, values@);
                &&& o.error matches Some(e) ==> r == Err::<usize, ConfigBuilderError>(e)
                &&& o.error is None ==> r == Ok::<usize, ConfigBuilderError>(o.taken as usize)
                &&& o.finished ==> ((*final(self)) matches ConfigBuilder::Config(c) && c@
                    == o.config)
                &&& !o.finished ==> ((*final(self)) matches ConfigBuilder::Builder(nb) && nb.schema
                    == b.schema && nb.config@ == o.config)
            }),
    {
        match self {
            ConfigBuilder::Config(_) => {
                return Err(ConfigBuilderError::ValueOutsideSchema);
            },
            ConfigBuilder::Builder(_) => {},
        }
        let ghost b0 = self->Builder_0;
        let ghost o = inject_spec(b0.schema@, b0.config@, values@);
        proof {
            assert(values@.skip(0) =~= values@);
        }
        let mut k: usize = 0;
        while k < values.len()
            invariant
                k <= values@.len(),
                (*old(self)) matches ConfigBuilder::Builder(bb) && bb == b0,
                b0.wf(),
                o == inject_spec(b0.schema@, b0.config@, values@),
                (*self) matches ConfigBuilder::Builder(b) && b.wf() && b.schema == b0.schema && ({
                    let rest = inject_spec(b0.schema@, b.config@, values@.skip(k as int));
                    &&& o.config == rest.config
                    &&& o.taken == k + rest.taken
                    &&& o.finished == rest.finished
                    &&& o.error == rest.error
                }),
            decreases values@.len() - k,
        {
            let ghost pre_config = self->Builder_0.config@;
            match self {
                ConfigBuilder::Builder(building) => {
                    match building.append(&values[k]) {
                        Err(e) => {
                            proof {
                                assert(inject_spec(
                                    b0.schema@,
                                    pre_config,
                                    values@.skip(k as int),
                                ).error == Some(e));
                            }
                            return Err(e);
                        },
                        Ok(true) => {
                            k = k + 1;
                            let finished = building.config.clone();
                            proof {
                                assert(values@.skip(k as int - 1).drop_first() =~= values@.skip(
                                    k as int,
                                ));
                            }
                            *self = ConfigBuilder::Config(finished);
                            return Ok(k);
                        },
                        Ok(false) => {
                            k = k + 1;
                            proof {
                                assert(values@.skip(k as int - 1).drop_first() =~= values@.skip(
                                    k as int,
                                ));
                            }
                        },
                    }
                },
                ConfigBuilder::Config(_) => {
                    proof {
                        assert(false);
                    }
                },
            }
        }
        proof {
            assert(values@.skip(k as int).len() == 0);
        }
        Ok(k)
    }

    /// If the configuration is unfinished, check and append one item to it;
    /// `Ok(true)` means that the config is now fully built.
    ///
    /// Unlike [`ConfigBuilder::inject`], this never turns the builder into a
    /// finished configuration: it only reports fullness.
    pub fn append(&mut self, value: &serde_json::Value) -> (r: Result<bool, ConfigBuilderError>)
        requires
            old(self).wf(),
        ensures
            final(self).wf(),
            (*old(self)) matches ConfigBuilder::Config(c) ==> ((*final(self)) matches ConfigBuilder::Config(d)
                && d@ == c@ && r == Err::<bool, ConfigBuilderError>(
                ConfigBuilderError::ValueOutsideSchema,
            )),
            (*old(self)) matches ConfigBuilder::Builder(b) ==> ((*final(self)) matches
                ConfigBuilder::Builder(nb) && nb.schema == b.schema && ({
                &&& b.config@.len() == b.schema@.len() ==> r == Err::<bool, ConfigBuilderError>(
                    ConfigBuilderError::ValueOutsideSchema,
                ) && nb.config@ == b.config@
                &&& b.config@.len() < b.schema@.len() && value_kind(
                    b.schema@[b.config@.len() as int],
                ) != value_kind(*value) ==> r == Err::<bool, ConfigBuilderError>(
                    ConfigBuilderError::TypeMismatch(
                        b.config@.len() as usize,
                        value_kind(b.schema@[b.config@.len() as int]),
                        value_kind(*value),
                    ),
                ) && nb.config@ == b.config@
                &&& b.config@.len() < b.schema@.len() && value_kind(
                    b.schema@[b.config@.len() as int],
                ) == value_kind(*value) ==> nb.config@ == b.config@.push(*value) && r == Ok::<
                    bool,
                    ConfigBuilderError,
                >(nb.config@.len() == nb.schema@.len())
            })),
    {
        match self {
            ConfigBuilder::Builder(builder) => builder.append(value),
            ConfigBuilder::Config(_) => Err(ConfigBuilderError::ValueOutsideSchema),
        }
    }

    /// Returns `true` if the config builder is [`Builder`][ConfigBuilder::Builder].
    pub fn is_builder(&self) -> (r: bool)
        ensures
            r == (self matches ConfigBuilder::Builder(_)),
    {
        matches!(self, ConfigBuilder::Builder(..))
    }

    /// Returns `true` if the config builder is [`Config`][ConfigBuilder::Config].
    pub fn is_config(&self) -> (r: bool)
        ensures
            r == (self matches ConfigBuilder::Config(_)),
    {
        matches!(self, ConfigBuilder::Config(..))
    }
}

} // verus!
