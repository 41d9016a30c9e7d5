//! An ordered, sharable sequence of mods with run-time type-flow
//! verification and safe insertion.
//!
//! The mods of a pipeline are only known to be compatible at run time: each
//! stage declares the variant it consumes and the variant it produces, and
//! the pipeline is *valid* when, for every adjacent pair, the output variant
//! of the earlier mod equals the input variant of the later one.  Mods are
//! held through [`Rc`], so one instance may appear in several pipelines at
//! once.

use crate::resource::{DataKind, Mod};
use std::rc::Rc;
use vstd::prelude::*;

verus! {

/// Error type for pipeline operations.
#[derive(Debug, Clone, Copy, PartialEq, Eq, Structural)]
pub enum PipelineError {
    /// An index outside `[0, len]`.
    IndexOutsideRange,
    /// The output of the mod at the reported position does not match the
    /// input of the next mod.
    PipelineBroken(usize),
    /// Inserting the mod would break the pipeline.
    InsertBreaksPipeline,
}

/// The adjacent pair at positions `i` and `i + 1` is compatible.
pub open spec fn valid_between<M: Mod>(s: Seq<Rc<M>>, i: int) -> bool {
    s[i].output_type_spec() == s[i + 1].input_type_spec()
}

/// Every adjacent pair of the sequence is compatible.
pub open spec fn pipeline_valid<M: Mod>(s: Seq<Rc<M>>) -> bool {
    forall|i: int| 0 <= i && i + 1 < s.len() ==> #[trigger] valid_between(s, i)
}

/// The new mod sits strictly between two existing mods and agrees with both
/// neighbours: its input matches the predecessor's output and its output
/// matches the successor's input.
pub open spec fn fits_middle<M: Mod>(s: Seq<Rc<M>>, index: int, item: Rc<M>) -> bool {
    &&& 0 < index < s.len()
    &&& item.input_type_spec() == s[index - 1].output_type_spec()
    &&& item.output_type_spec() == s[index].input_type_spec()
}

/// The new mod joins a non-empty pipeline at an edge.  Edge insertion must
/// not change the pipeline's externally visible input and output variants,
/// so the mod's input must equal its own output, and that variant must equal
/// the adjoining mod's corresponding variant.
pub open spec fn fits_edge<M: Mod>(s: Seq<Rc<M>>, index: int, item: Rc<M>) -> bool {
    &&& s.len() > 0
    &&& item.input_type_spec() == item.output_type_spec()
    &&& ((index == 0 && item.output_type_spec() == s[0].input_type_spec()) || (index == s.len()
        && item.input_type_spec() == s[s.len() - 1].output_type_spec()))
}

/// A checked insertion at `index` is allowed: into an empty pipeline
/// unconditionally, otherwise strictly between agreeing neighbours or at an
/// agreeing edge.
pub open spec fn insertion_allowed<M: Mod>(s: Seq<Rc<M>>, index: int, item: Rc<M>) -> bool {
    s.len() == 0 || fits_middle(s, index, item) || fits_edge(s, index, item)
}

/// An ordered, sharable sequence of mods.
pub struct Pipeline<M: Mod> {
    mods: Vec<Rc<M>>,
}

impl<M: Mod> View for Pipeline<M> {
    type V = Seq<Rc<M>>;

    closed spec fn view(&self) -> Seq<Rc<M>> {
        self.mods@
    }
}

impl<M: Mod> Pipeline<M> {
    /// An empty pipeline.  An empty pipeline is valid.
    pub fn new() -> (r: Self)
        ensures
            r@ == Seq::<Rc<M>>::empty(),
            pipeline_valid(r@),
    {
        Pipeline { mods: Vec::new() }
    }

    /// The number of mods in the pipeline.
    pub fn len(&self) -> (r: usize)
        ensures
            r == self@.len(),
    {
        self.mods.len()
    }

    /// A borrow of the mod at `index`.
    pub fn get(&self, index: usize) -> (r: &Rc<M>)
        requires
            index < self@.len(),
        ensures
            *r == self@[index as int],
    {
        &self.mods[index]
    }

    /// Append a mod without any compatibility check.
    ///
    /// The pipeline may stop being valid; [`Pipeline::is_valid`] reports
    /// where.
    pub fn push(&mut self, item: Rc<M>)
        ensures
            final(self)@ == old(self)@.push(item),
    {
        self.mods.push(item);
    }

    /// Insert a mod while keeping the pipeline valid and keeping how it
    /// transforms variants.
    ///
    /// Into an empty pipeline any mod is accepted.  Strictly between two
    /// mods, the insertion succeeds exactly when the new mod agrees with
    /// both neighbours.  At an edge of a non-empty pipeline it succeeds
    /// exactly when the mod maps a variant to itself and that variant
    /// matches the adjoining mod.  An index outside `[0, len]` fails with an
    /// out-of-range error, distinct from the type error.
    ///
    /// A valid pipeline stays valid under every successful insertion, so a
    /// pipeline built only through this method is valid.
    pub fn insert_checked(&mut self, index: usize, item: Rc<M>) -> (r: Result<(), PipelineError>)
        ensures
            index > old(self)@.len() ==> r == Err::<(), PipelineError>(
                PipelineError::IndexOutsideRange,
            ) && final(self)@ == old(self)@,
            index <= old(self)@.len() && !insertion_allowed(old(self)@, index as int, item) ==> r
                == Err::<(), PipelineError>(PipelineError::InsertBreaksPipeline) && final(self)@
                == old(self)@,
            index <= old(self)@.len() && insertion_allowed(old(self)@, index as int, item) ==> r
                == Ok::<(), PipelineError>(()) && final(self)@ == old(self)@.insert(
                index as int,
                item,
            ),
            r is Ok && pipeline_valid(old(self)@) ==> pipeline_valid(final(self)@),
    {
        let ghost s = self@;
        if index > self.mods.len() {
            return Err(PipelineError::IndexOutsideRange);
        }
        if self.mods.len() == 0 {
            self.mods.push(item);
            proof {
                assert(s.push(item) == s.insert(index as int, item));
                lemma_insert_preserves_valid(s, index as int, item);
            }
            return Ok(());
        }
        let ghost was_valid = pipeline_valid(s);
        let fits_in_middle = 0 < index && index < self.mods.len() && item.input_type()
            == self.mods[index - 1].output_type() && item.output_type()
            == self.mods[index].input_type();
        let fits_at_edge = !fits_in_middle && item.input_type() == item.output_type() && ((index
            == 0 && item.output_type() == self.mods[0].input_type()) || (index == self.mods.len()
            && item.input_type() == self.mods[self.mods.len() - 1].output_type()));
        if fits_in_middle || fits_at_edge {
            self.mods.insert(index, item);
            proof {
                if was_valid {
                    lemma_insert_preserves_valid(s, index as int, item);
                }
            }
            Ok(())
        } else {
            proof {
                assert(!insertion_allowed(s, index as int, item));
            }
            Err(PipelineError::InsertBreaksPipeline)
        }
    }

    /// Check that the pipeline is valid: each mod produces the variant that
    /// the next mod accepts.  On failure reports the first offending
    /// position.
    pub fn is_valid(&self) -> (r: Result<(), PipelineError>)
        ensures
            (r is Ok) == pipeline_valid(self@),
            r matches Err(e) ==> (e matches PipelineError::PipelineBroken(i) && 0 <= i && i + 1
                < self@.len() && !valid_between(self@, i as int) && forall|j: int|
                0 <= j < i ==> #[trigger] valid_between(self@, j)),
    {
        let n = self.mods.len();
        if n == 0 {
            return Ok(());
        }
        let mut i: usize = 0;
        while i < n - 1
            invariant
                n == self@.len(),
                1 <= n,
                i <= n - 1,
                forall|j: int| 0 <= j < i ==> #[trigger] valid_between(self@, j),
            decreases n - i,
        {
            if self.mods[i].output_type() != self.mods[i + 1].input_type() {
                proof {
                    assert(!pipeline_valid(self@)) by {
                        if pipeline_valid(self@) {
                            assert(valid_between(self@, i as int));
                        }
                    }
                }
                return Err(PipelineError::PipelineBroken(i));
            }
            i = i + 1;
        }
        Ok(())
    }

    /// Get all variant changes that happen in the pipeline: the ordered
    /// sequence of output variants at each position where a mod's output
    /// differs from its input.  Mods shaped like the identity are omitted,
    /// leaving a condensed view of where real transformations occur.
    ///
    /// Fails like [`Pipeline::is_valid`] when the pipeline is broken.
    pub fn type_flow(&self) -> (r: Result<Vec<DataKind>, PipelineError>)
        ensures
            (r is Ok) == pipeline_valid(self@),
            r matches Ok(flow) ==> flow@ == flow_spec(self@),
            r matches Err(e) ==> (e matches PipelineError::PipelineBroken(i) && 0 <= i && i + 1
                < self@.len() && !valid_between(self@, i as int)),
    {
        match self.is_valid() {
            Ok(_) => {},
            Err(e) => {
                return Err(e);
            },
        }
        let mut out: Vec<DataKind> = Vec::new();
        let mut i: usize = 0;
        while i < self.mods.len()
            invariant
                i <= self@.len(),
                self@.len() == self.mods@.len(),
                out@ == flow_spec(self@.take(i as int)),
            decreases self@.len() - i,
        {
            if self.mods[i].input_type() != self.mods[i].output_type() {
                out.push(self.mods[i].output_type());
            }
            i = i + 1;
            proof {
                assert(self@.take(i as int).drop_last() == self@.take(i as int - 1));
                assert(self@.take(i as int).last() == self@[i as int - 1]);
            }
        }
        proof {
            assert(self@.take(self@.len() as int) == self@);
        }
        Ok(out)
    }

    /// The input variant of the first mod, or `None` for an empty pipeline.
    pub fn input_type(&self) -> (r: Option<DataKind>)
        ensures
            self@.len() == 0 ==> r is None,
            self@.len() > 0 ==> r == Some(self@[0].input_type_spec()),
    {
        if self.mods.len() == 0 {
            None
        } else {
            Some(self.mods[0].input_type())
        }
    }

    /// The output variant of the last mod, or `None` for an empty pipeline.
    pub fn output_type(&self) -> (r: Option<DataKind>)
        ensures
            self@.len() == 0 ==> r is None,
            self@.len() > 0 ==> r == Some(self@[self@.len() - 1].output_type_spec()),
    {
        if self.mods.len() == 0 {
            None
        } else {
            Some(self.mods[self.mods.len() - 1].output_type())
        }
    }
}

/// The condensed variant flow of a pipeline: the output variant of every mod
/// whose output differs from its input, in order.
pub open spec fn flow_spec<M: Mod>(s: Seq<Rc<M>>) -> Seq<DataKind>
    decreases s.len(),
{
    if s.len() == 0 {
        Seq::empty()
    } else if s.last().input_type_spec() != s.last().output_type_spec() {
        flow_spec(s.drop_last()).push(s.last().output_type_spec())
    } else {
        flow_spec(s.drop_last())
    }
}

/// An allowed insertion into a valid pipeline yields a valid pipeline.
///
/// Together with the validity of the empty pipeline this gives: every
/// pipeline built only through checked insertions is valid.
pub proof fn lemma_insert_preserves_valid<M: Mod>(s: Seq<Rc<M>>, index: int, item: Rc<M>)
    requires
        pipeline_valid(s),
        0 <= index <= s.len(),
        insertion_allowed(s, index, item),
    ensures
        pipeline_valid(s.insert(index, item)),
{
    let t = s.insert(index, item);
    assert forall|i: int| 0 <= i && i + 1 < t.len() implies #[trigger] valid_between(t, i) by {
        if i + 1 < index {
            assert(t[i] == s[i]);
            assert(t[i + 1] == s[i + 1]);
            assert(valid_between(s, i));
        } else if i + 1 == index {
            assert(t[i] == s[i]);
            assert(t[i + 1] == item);
            if fits_middle(s, index, item) {
                assert(valid_between(t, i));
            } else {
                assert(fits_edge(s, index, item));
                assert(index == s.len());
                assert(valid_between(t, i));
            }
        } else if i == index {
            assert(t[i] == item);
            assert(t[i + 1] == s[i]);
            if fits_middle(s, index, item) {
                assert(valid_between(t, i));
            } else {
                assert(fits_edge(s, index, item));
                assert(index == 0);
                assert(valid_between(t, i));
            }
        } else {
            assert(t[i] == s[i - 1]);
            assert(t[i + 1] == s[i]);
            assert(valid_between(s, i - 1));
        }
    }
}

} // verus!
