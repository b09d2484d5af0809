//! Predicates over a file, and chains of them combined by AND.

use vstd::prelude::*;

use crate::paths::{extension, extension_of, file_name_of};
use crate::probe::AVProbeMetadata;

verus! {

/// What is known of one file when predicates are evaluated on it.
pub struct PathFacts {
    pub path: String,
    /// Length in bytes; `None` when the file's metadata could not be read.
    pub size: Option<u64>,
    /// Codec descriptor; `None` when the file could not be probed.
    pub probe: Option<AVProbeMetadata>,
}

/// A boolean test of a file.
pub trait PathFilter {
    /// Whether the test passes for a file with these facts.
    spec fn accepts(&self, facts: PathFacts) -> bool;

    fn filter(&self, facts: &PathFacts) -> (r: bool)
        ensures
            r == self.accepts(*facts),
    ;
}

/// Passes when the file's extension is exactly `extension` (case-sensitive).
pub struct PathExtensionFilter {
    pub extension: String,
}

/// Passes when the file is at least `minimum_size` bytes long.
pub struct MinimumSizeFilter {
    pub minimum_size: u64,
}

/// Passes when the probe reports exactly this codec name and tag.
pub struct VideoCodecFilter {
    pub video_codec: String,
    pub video_codec_tag: String,
}

/// Passes when the wrapped predicate fails.
pub struct NotFilter {
    pub filter: Box<Predicate>,
}

/// The closed set of predicates.
pub enum Predicate {
    Extension(PathExtensionFilter),
    MinimumSize(MinimumSizeFilter),
    VideoCodec(VideoCodecFilter),
    Not(NotFilter),
}

impl PathExtensionFilter {
    pub fn new(extension: &str) -> (r: PathExtensionFilter)
        ensures
            r.extension@ == extension@,
    {
        PathExtensionFilter { extension: String::from_str(extension) }
    }
}

impl MinimumSizeFilter {
    pub fn new(minimum_size: u64) -> (r: MinimumSizeFilter)
        ensures
            r.minimum_size == minimum_size,
    {
        MinimumSizeFilter { minimum_size }
    }
}

impl VideoCodecFilter {
    pub fn new(video_codec: &str, video_codec_tag: &str) -> (r: VideoCodecFilter)
        ensures
            r.video_codec@ == video_codec@,
            r.video_codec_tag@ == video_codec_tag@,
    {
        VideoCodecFilter {
            video_codec: String::from_str(video_codec),
            video_codec_tag: String::from_str(video_codec_tag),
        }
    }
}

impl NotFilter {
    pub fn new(filter: Box<Predicate>) -> (r: NotFilter)
        ensures
            r.filter == filter,
    {
        NotFilter { filter }
    }
}

impl PathFilter for PathExtensionFilter {
    open spec fn accepts(&self, facts: PathFacts) -> bool {
        extension_of(file_name_of(facts.path@)) == Some(self.extension@)
    }

    fn filter(&self, facts: &PathFacts) -> (r: bool) {
        match extension(facts.path.as_str()) {
            Some(e) => e == self.extension,
            None => false,
        }
    }
}

impl PathFilter for MinimumSizeFilter {
    open spec fn accepts(&self, facts: PathFacts) -> bool {
        facts.size matches Some(n) && n >= self.minimum_size
    }

    fn filter(&self, facts: &PathFacts) -> (r: bool) {
        match facts.size {
            Some(n) => n >= self.minimum_size,
            None => false,
        }
    }
}

impl PathFilter for VideoCodecFilter {
    open spec fn accepts(&self, facts: PathFacts) -> bool {
        facts.probe matches Some(m) && m.is_codec(self.video_codec@, self.video_codec_tag@)
    }

    fn filter(&self, facts: &PathFacts) -> (r: bool) {
        match &facts.probe {
            Some(m) => m.video_codec == self.video_codec && m.video_codec_tag
                == self.video_codec_tag,
            None => false,
        }
    }
}

impl PathFilter for NotFilter {
    open spec fn accepts(&self, facts: PathFacts) -> bool {
        !self.filter.holds(facts)
    }

    fn filter(&self, facts: &PathFacts) -> (r: bool) {
        !self.filter.evaluate(facts)
    }
}

impl Predicate {
    /// Whether the predicate passes for a file with these facts.
    pub open spec fn holds(self, facts: PathFacts) -> bool
        decreases self,
    {
        match self {
            Predicate::Extension(f) => f.accepts(facts),
            Predicate::MinimumSize(f) => f.accepts(facts),
            Predicate::VideoCodec(f) => f.accepts(facts),
            Predicate::Not(n) => !n.filter.holds(facts),
        }
    }

    /// Whether the predicate's outcome can depend on the probe.
    pub open spec fn reads_probe(self) -> bool
        decreases self,
    {
        match self {
            Predicate::VideoCodec(_) => true,
            Predicate::Not(n) => n.filter.reads_probe(),
            _ => false,
        }
    }

    pub fn evaluate(&self, facts: &PathFacts) -> (r: bool)
        ensures
            r == self.holds(*facts),
        decreases self,
    {
        match self {
            Predicate::Extension(f) => f.filter(facts),
            Predicate::MinimumSize(f) => f.filter(facts),
            Predicate::VideoCodec(f) => f.filter(facts),
            Predicate::Not(n) => !n.filter.evaluate(facts),
        }
    }

    pub fn uses_probe(&self) -> (r: bool)
        ensures
            r == self.reads_probe(),
        decreases self,
    {
        match self {
            Predicate::VideoCodec(_) => true,
            Predicate::Not(n) => n.filter.uses_probe(),
            _ => false,
        }
    }
}

impl PathFilter for Predicate {
    open spec fn accepts(&self, facts: PathFacts) -> bool {
        self.holds(facts)
    }

    fn filter(&self, facts: &PathFacts) -> (r: bool) {
        self.evaluate(facts)
    }
}

/// Whether every predicate of `chain` passes.
pub open spec fn chain_holds(chain: Seq<Predicate>, facts: PathFacts) -> bool {
    forall|i: int| 0 <= i < chain.len() ==> #[trigger] chain[i].holds(facts)
}

/// The same facts with another probe outcome.
pub open spec fn with_probe(facts: PathFacts, probe: Option<AVProbeMetadata>) -> PathFacts {
    PathFacts { path: facts.path, size: facts.size, probe }
}

/// Whether the chain can only be decided by probing: some predicate reads the
/// probe, and every predicate that does not read it passes.
pub open spec fn chain_needs_probe(chain: Seq<Predicate>, facts: PathFacts) -> bool {
    &&& exists|i: int| 0 <= i < chain.len() && #[trigger] chain[i].reads_probe()
    &&& forall|i: int|
        0 <= i < chain.len() && !#[trigger] chain[i].reads_probe() ==> chain[i].holds(facts)
}

/// Evaluates the chain with AND semantics, stopping at the first failure.
pub fn passes_all(chain: &Vec<Predicate>, facts: &PathFacts) -> (r: bool)
    ensures
        r == chain_holds(chain@, *facts),
{
    let mut i: usize = 0;
    while i < chain.len()
        invariant
            i <= chain@.len(),
            forall|j: int| 0 <= j < i ==> #[trigger] chain@[j].holds(*facts),
        decreases chain.len() - i,
    {
        if !chain[i].evaluate(facts) {
            return false;
        }
        i = i + 1;
    }
    true
}

/// Whether the probe must be run to decide the chain for these facts; the
/// probe outcome in `facts` is not read. When it returns false, the chain's
/// outcome is the same for every probe outcome.
pub fn needs_probe(chain: &Vec<Predicate>, facts: &PathFacts) -> (r: bool)
    ensures
        r == chain_needs_probe(chain@, *facts),
        !r ==> forall|p: Option<AVProbeMetadata>|
            chain_holds(chain@, #[trigger] with_probe(*facts, p)) == chain_holds(chain@, *facts),
{
    let mut any_probe = false;
    let mut i: usize = 0;
    while i < chain.len()
        invariant
            i <= chain@.len(),
            any_probe == exists|j: int| 0 <= j < i && #[trigger] chain@[j].reads_probe(),
            forall|j: int|
                0 <= j < i && !#[trigger] chain@[j].reads_probe() ==> chain@[j].holds(*facts),
        decreases chain.len() - i,
    {
        if chain[i].uses_probe() {
            any_probe = true;
        } else if !chain[i].evaluate(facts) {
            proof {
                lemma_chain_fails_without_probe(chain@, *facts, i as int);
            }
            return false;
        }
        i = i + 1;
    }
    proof {
        if !any_probe {
            assert forall|p: Option<AVProbeMetadata>|
                chain_holds(chain@, #[trigger] with_probe(*facts, p)) == chain_holds(
                    chain@,
                    *facts,
                ) by {
                assert forall|j: int| 0 <= j < chain@.len() implies chain@[j].holds(
                    with_probe(*facts, p),
                ) == chain@[j].holds(*facts) by {
                    lemma_probe_free(chain@[j], *facts, p);
                }
            }
        }
    }
    any_probe
}

/// A predicate that does not read the probe has the same outcome whatever
/// the probe reported.
pub proof fn lemma_probe_free(pred: Predicate, facts: PathFacts, probe: Option<AVProbeMetadata>)
    requires
        !pred.reads_probe(),
    ensures
        pred.holds(with_probe(facts, probe)) == pred.holds(facts),
    decreases pred,
{
    if let Predicate::Not(n) = pred {
        lemma_probe_free(*n.filter, facts, probe);
    }
}

proof fn lemma_chain_fails_without_probe(chain: Seq<Predicate>, facts: PathFacts, i: int)
    requires
        0 <= i < chain.len(),
        !chain[i].reads_probe(),
        !chain[i].holds(facts),
    ensures
        forall|p: Option<AVProbeMetadata>|
            !chain_holds(chain, #[trigger] with_probe(facts, p)),
        !chain_holds(chain, facts),
{
    assert forall|p: Option<AVProbeMetadata>| !chain_holds(chain, #[trigger] with_probe(facts, p)) by {
        lemma_probe_free(chain[i], facts, p);
    }
}

/// A file that fails any single predicate of a chain fails the chain.
pub proof fn lemma_chain_fails_on_any_failure(chain: Seq<Predicate>, facts: PathFacts, i: int)
    requires
        0 <= i < chain.len(),
        !chain[i].holds(facts),
    ensures
        !chain_holds(chain, facts),
{
}

/// Negating a predicate inverts its outcome on every file.
pub proof fn lemma_not_inverts(pred: Predicate, facts: PathFacts)
    ensures
        Predicate::Not(NotFilter { filter: Box::new(pred) }).holds(facts) == !pred.holds(facts),
        (NotFilter { filter: Box::new(pred) }).accepts(facts) == !pred.holds(facts),
{
}

} // verus!
