//! What is known of the models.

use vstd::prelude::*;

use crate::text::same_text;

verus! {

/// The name whose fixture stands for every model that has none of its own.
pub const DEFAULT_MODEL: &'static str = "__default__";

/// Per-model fixture metadata used by the planner.
#[derive(Debug)]
pub struct ModelFixture {
    pub model: String,
    /// If true, the model is registered on more than one query engine.
    pub multi_engine: bool,
    /// Number of registered engines (informational).
    pub engine_count: usize,
}

/// What a fixture says.
pub struct FixtureView {
    pub model: Seq<char>,
    pub multi_engine: bool,
    pub engine_count: usize,
}

impl View for ModelFixture {
    type V = FixtureView;

    open spec fn view(&self) -> FixtureView {
        FixtureView { model: self.model@, multi_engine: self.multi_engine, engine_count: self.engine_count }
    }
}

impl Clone for ModelFixture {
    fn clone(&self) -> (copy: Self)
        ensures
            copy@ == self@,
    {
        ModelFixture { model: self.model.clone(), multi_engine: self.multi_engine, engine_count: self.engine_count }
    }
}

/// The fixtures of a set of models, by name. No name occurs twice.
#[derive(Debug)]
pub struct FixtureMap {
    entries: Vec<(String, ModelFixture)>,
}

spec fn stands_at(entries: Seq<(String, ModelFixture)>, name: Seq<char>, at: int) -> bool {
    0 <= at < entries.len() && entries[at].0@ == name
}

spec fn names_distinct(entries: Seq<(String, ModelFixture)>) -> bool {
    forall|i: int, j: int| 0 <= i < j < entries.len() ==> (#[trigger] entries[i]).0@ != (#[trigger] entries[j]).0@
}

spec fn as_map(entries: Seq<(String, ModelFixture)>) -> Map<Seq<char>, FixtureView> {
    Map::new(
        |name: Seq<char>| exists|at: int| stands_at(entries, name, at),
        |name: Seq<char>| entries[choose|at: int| stands_at(entries, name, at)].1@,
    )
}

proof fn lemma_found(entries: Seq<(String, ModelFixture)>, name: Seq<char>, at: int)
    requires
        names_distinct(entries),
        stands_at(entries, name, at),
    ensures
        as_map(entries).contains_key(name),
        as_map(entries)[name] == entries[at].1@,
{
    lemma_unique(entries, name, at);
}

proof fn lemma_unique(entries: Seq<(String, ModelFixture)>, name: Seq<char>, at: int)
    requires
        names_distinct(entries),
        stands_at(entries, name, at),
    ensures
        forall|i: int| i != at ==> !#[trigger] stands_at(entries, name, i),
{
    assert forall|i: int| i != at implies !#[trigger] stands_at(entries, name, i) by {
        if stands_at(entries, name, i) {
            if i < at {
                assert(entries[i].0@ != entries[at].0@);
            } else {
                assert(entries[at].0@ != entries[i].0@);
            }
        }
    }
}

/// Apart from `name`, which stands at `at` in `after`, the two lists hold the same.
spec fn same_but_for(
    before: Seq<(String, ModelFixture)>,
    after: Seq<(String, ModelFixture)>,
    name: Seq<char>,
    at: int,
) -> bool {
    &&& stands_at(after, name, at)
    &&& before.len() <= after.len() <= before.len() + 1
    &&& after.len() > before.len() ==> at == before.len()
    &&& forall|i: int| 0 <= i < before.len() && i != at ==> (#[trigger] after[i]) == before[i]
    &&& forall|i: int| i != at ==> !#[trigger] stands_at(before, name, i)
}

proof fn lemma_inserted(
    before: Seq<(String, ModelFixture)>,
    after: Seq<(String, ModelFixture)>,
    name: Seq<char>,
    at: int,
)
    requires
        names_distinct(before),
        same_but_for(before, after, name, at),
        at < before.len() ==> before[at].0@ == name,
    ensures
        names_distinct(after),
        as_map(after) == as_map(before).insert(name, after[at].1@),
{
    assert forall|i: int, j: int| 0 <= i < j < after.len() implies (#[trigger] after[i]).0@ != (#[trigger] after[j]).0@ by {
        if j < before.len() {
            assert(before[i].0@ != before[j].0@);
        } else {
            assert(!stands_at(before, name, i));
        }
    }
    lemma_found(after, name, at);
    assert forall|other: Seq<char>| other != name implies #[trigger] as_map(after).contains_key(other) == as_map(
        before,
    ).contains_key(other) && (as_map(before).contains_key(other) ==> as_map(after)[other] == as_map(before)[other]) by {
        if as_map(before).contains_key(other) {
            let i = choose|i: int| stands_at(before, other, i);
            assert(stands_at(after, other, i));
            lemma_found(after, other, i);
            lemma_found(before, other, i);
        }
        if as_map(after).contains_key(other) {
            let i = choose|i: int| stands_at(after, other, i);
            assert(stands_at(before, other, i));
            lemma_found(before, other, i);
        }
    }
    let inserted = as_map(before).insert(name, after[at].1@);
    assert forall|other: Seq<char>| as_map(after).contains_key(other) == #[trigger] inserted.contains_key(other) by {
        if other != name {
            assert(as_map(after).contains_key(other) == as_map(before).contains_key(other));
        }
    }
    assert(as_map(after) =~= inserted);
}

impl View for FixtureMap {
    type V = Map<Seq<char>, FixtureView>;

    closed spec fn view(&self) -> Map<Seq<char>, FixtureView> {
        as_map(self.entries@)
    }
}

impl FixtureMap {
    #[verifier::type_invariant]
    spec fn no_name_twice(self) -> bool {
        names_distinct(self.entries@)
    }

    /// No fixtures.
    pub fn new() -> (fixtures: FixtureMap)
        ensures
            fixtures@ == Map::<Seq<char>, FixtureView>::empty(),
    {
        let fixtures = FixtureMap { entries: Vec::new() };
        assert(fixtures@ =~= Map::<Seq<char>, FixtureView>::empty());
        fixtures
    }

    /// Where `name` stands.
    fn position(&self, name: &str) -> (at: Option<usize>)
        ensures
            match at {
                Some(at) => stands_at(self.entries@, name@, at as int),
                None => forall|i: int| !stands_at(self.entries@, name@, i),
            },
    {
        let mut i: usize = 0;
        while i < self.entries.len()
            invariant
                i <= self.entries@.len(),
                forall|j: int| 0 <= j < i ==> !stands_at(self.entries@, name@, j),
            decreases self.entries@.len() - i,
        {
            if same_text(&self.entries[i].0, name) {
                return Some(i);
            }
            i += 1;
        }
        None
    }

    /// Records the fixture of `name`, in place of the one that it may have had.
    pub fn insert(&mut self, name: String, fixture: ModelFixture)
        ensures
            final(self)@ == old(self)@.insert(name@, fixture@),
    {
        proof {
            use_type_invariant(&*self);
        }
        let found = self.position(name.as_str());
        let ghost before = self.entries@;
        let mut entries: Vec<(String, ModelFixture)> = Vec::new();
        std::mem::swap(&mut entries, &mut self.entries);
        match found {
            Some(at) => {
                entries.set(at, (name, fixture));
                proof {
                    lemma_unique(before, name@, at as int);
                    assert(stands_at(entries@, name@, at as int));
                    lemma_inserted(before, entries@, name@, at as int);
                }
            },
            None => {
                entries.push((name, fixture));
                proof {
                    assert(stands_at(entries@, name@, before.len() as int));
                    lemma_inserted(before, entries@, name@, before.len() as int);
                }
            },
        }
        self.entries = entries;
    }

    /// The fixture of `name`.
    pub fn get(&self, name: &str) -> (fixture: Option<&ModelFixture>)
        ensures
            match fixture {
                Some(fixture) => self@.contains_key(name@) && self@[name@] == fixture@,
                None => !self@.contains_key(name@),
            },
    {
        proof {
            use_type_invariant(self);
        }
        match self.position(name) {
            Some(at) => {
                proof {
                    lemma_found(self.entries@, name@, at as int);
                }
                Some(&self.entries[at].1)
            },
            None => None,
        }
    }
}

impl Clone for FixtureMap {
    fn clone(&self) -> (copy: Self)
        ensures
            copy@ == self@,
    {
        proof {
            use_type_invariant(self);
        }
        let mut entries: Vec<(String, ModelFixture)> = Vec::new();
        let mut i: usize = 0;
        while i < self.entries.len()
            invariant
                i <= self.entries@.len(),
                entries@.len() == i,
                forall|j: int|
                    0 <= j < i ==> (#[trigger] entries@[j]).0@ == self.entries@[j].0@ && entries@[j].1@
                        == self.entries@[j].1@,
            decreases self.entries@.len() - i,
        {
            entries.push((self.entries[i].0.clone(), self.entries[i].1.clone()));
            i += 1;
        }
        proof {
            let from = self.entries@;
            assert forall|i: int, j: int| 0 <= i < j < entries@.len() implies (#[trigger] entries@[i]).0@
                != (#[trigger] entries@[j]).0@ by {
                assert(from[i].0@ != from[j].0@);
            }
            assert forall|name: Seq<char>, at: int|
                #[trigger] stands_at(entries@, name, at) == stands_at(from, name, at) by {}
            assert forall|name: Seq<char>| #[trigger] as_map(entries@).contains_key(name) == as_map(from).contains_key(
                name,
            ) && (as_map(from).contains_key(name) ==> as_map(entries@)[name] == as_map(from)[name]) by {
                if as_map(from).contains_key(name) {
                    let at = choose|at: int| stands_at(from, name, at);
                    assert(stands_at(entries@, name, at));
                    lemma_found(entries@, name, at);
                    lemma_found(from, name, at);
                }
                if as_map(entries@).contains_key(name) {
                    let at = choose|at: int| stands_at(entries@, name, at);
                    assert(stands_at(from, name, at));
                }
            }
            assert(as_map(entries@) =~= as_map(from));
        }
        FixtureMap { entries }
    }
}

/// A fixture for a model called `model`.
pub open spec fn fixture(model: Seq<char>, multi_engine: bool, engine_count: usize) -> FixtureView {
    FixtureView { model, multi_engine, engine_count }
}

/// The bundled fixtures.
pub open spec fn bundled_fixtures() -> Map<Seq<char>, FixtureView> {
    map![
        "tasty_bytes"@ => fixture("tasty_bytes"@, false, 1),
        "internet_sales"@ => fixture("internet_sales"@, true, 2),
        "__default__"@ => fixture("__default__"@, false, 1),
    ]
}

/// Whether the planner takes a model to be registered on more than one engine.
pub open spec fn on_multiple_engines(model: Seq<char>, fixtures: Map<Seq<char>, FixtureView>) -> bool {
    if fixtures.contains_key(model) {
        fixtures[model].multi_engine
    } else if fixtures.contains_key(DEFAULT_MODEL@) {
        fixtures[DEFAULT_MODEL@].multi_engine
    } else {
        false
    }
}

/// Returns the bundled model fixture map.
pub fn bundled_model_fixtures() -> (fixtures: FixtureMap)
    ensures
        fixtures@ == bundled_fixtures(),
{
    let mut fixtures = FixtureMap::new();
    // Tasty Bytes: single Snowflake engine.
    fixtures.insert(
        "tasty_bytes".to_string(),
        ModelFixture { model: "tasty_bytes".to_string(), multi_engine: false, engine_count: 1 },
    );
    // internet_sales: BigQuery + Snowflake.
    fixtures.insert(
        "internet_sales".to_string(),
        ModelFixture { model: "internet_sales".to_string(), multi_engine: true, engine_count: 2 },
    );
    // Default fallback: single engine.
    fixtures.insert(
        "__default__".to_string(),
        ModelFixture { model: "__default__".to_string(), multi_engine: false, engine_count: 1 },
    );
    assert(fixtures@ =~= bundled_fixtures());
    fixtures
}

/// Checks if the model is multi-engine per the fixture map.
pub fn is_multi_engine(model: &str, fixtures: &FixtureMap) -> (yes: bool)
    ensures
        yes == on_multiple_engines(model@, fixtures@),
{
    match fixtures.get(model) {
        Some(fixture) => fixture.multi_engine,
        None => match fixtures.get(DEFAULT_MODEL) {
            Some(fixture) => fixture.multi_engine,
            None => false,
        },
    }
}

} // verus!
