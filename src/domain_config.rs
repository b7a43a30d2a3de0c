//! The domain configuration: a domain's name and description, the
//! transaction types it supports and its named validation rules.

use vstd::prelude::*;

verus! {

/// The character sequences of a list of strings.
pub open spec fn str_views(v: Seq<String>) -> Seq<Seq<char>> {
    v.map_values(|s: String| s@)
}

/// `ts` with `t` appended, unless `t` is already in it.
pub open spec fn add_type(ts: Seq<Seq<char>>, t: Seq<char>) -> Seq<Seq<char>> {
    if ts.contains(t) {
        ts
    } else {
        ts.push(t)
    }
}

/// Adding a transaction type a second time changes nothing: the type is
/// listed once, and the types listed before keep their places.
pub proof fn adding_type_twice_keeps_one(ts: Seq<Seq<char>>, t: Seq<char>)
    requires
        ts.no_duplicates(),
    ensures
        add_type(add_type(ts, t), t) == add_type(ts, t),
        add_type(ts, t).no_duplicates(),
        add_type(ts, t).contains(t),
        ts.is_prefix_of(add_type(ts, t)),
{
    if !ts.contains(t) {
        let r = ts.push(t);
        assert(r[ts.len() as int] == t);
        assert(ts =~= r.take(ts.len() as int));
        assert forall|i: int, j: int| 0 <= i < r.len() && 0 <= j < r.len() && i != j implies r[i]
            != r[j] by {
            if i < ts.len() && j < ts.len() {
                assert(r[i] == ts[i] && r[j] == ts[j]);
            } else if i < ts.len() {
                assert(r[i] == ts[i]);
            } else {
                assert(r[j] == ts[j]);
            }
        }
    } else {
        assert(ts =~= ts.take(ts.len() as int));
    }
}

/// After adding `t`, exactly the types added before and `t` are supported.
pub proof fn supported_after_adding(ts: Seq<Seq<char>>, t: Seq<char>, u: Seq<char>)
    ensures
        add_type(ts, t).contains(u) <==> (ts.contains(u) || u == t),
{
    if !ts.contains(t) {
        let r = ts.push(t);
        assert(r[ts.len() as int] == t);
        if ts.contains(u) {
            let i = choose|i: int| 0 <= i < ts.len() && ts[i] == u;
            assert(r[i] == u);
        }
        if r.contains(u) {
            let i = choose|i: int| 0 <= i < r.len() && r[i] == u;
            if i < ts.len() {
                assert(ts[i] == u);
            }
        }
    }
}

/// No two entries of `v` carry the same rule name.
pub open spec fn names_unique(v: Seq<(String, String)>) -> bool {
    forall|i: int, j: int|
        0 <= i < v.len() && 0 <= j < v.len() && #[trigger] v[i].0@ == #[trigger] v[j].0@ ==> i == j
}

pub open spec fn has_name_at(v: Seq<(String, String)>, k: Seq<char>, i: int) -> bool {
    0 <= i < v.len() && v[i].0@ == k
}

/// The rule entries of `v` as a map from rule name to rule value.
pub open spec fn rules_map(v: Seq<(String, String)>) -> Map<Seq<char>, Seq<char>> {
    Map::new(
        |k: Seq<char>| exists|i: int| has_name_at(v, k, i),
        |k: Seq<char>| v[choose|i: int| has_name_at(v, k, i)].1@,
    )
}

/// Configuration of one domain.
#[derive(Debug, Clone)]
pub struct DomainConfig {
    /// Domain name (e.g. "uht_manufacturing", "pharmaceutical").
    pub domain_name: String,
    /// Free-text description of the domain.
    pub description: String,
    /// Supported transaction types, in the order they were first added.
    pub supported_transaction_types: Vec<String>,
    /// Validation rules as (name, value) entries with distinct names.
    pub validation_rules: Vec<(String, String)>,
}

impl DomainConfig {
    /// The supported transaction types.
    pub open spec fn types(&self) -> Seq<Seq<char>> {
        str_views(self.supported_transaction_types@)
    }

    /// The validation rules, by name.
    pub open spec fn rules(&self) -> Map<Seq<char>, Seq<char>> {
        rules_map(self.validation_rules@)
    }

    /// No transaction type is listed twice and no rule name is used twice.
    pub open spec fn wf(&self) -> bool {
        self.types().no_duplicates() && names_unique(self.validation_rules@)
    }

    /// A configuration with the given name and description, no transaction
    /// types and no rules.
    pub fn new(domain_name: String, description: String) -> (r: Self)
        ensures
            r.wf(),
            r.domain_name@ == domain_name@,
            r.description@ == description@,
            r.types() == Seq::<Seq<char>>::empty(),
            r.rules() == Map::<Seq<char>, Seq<char>>::empty(),
    {
        let r = DomainConfig {
            domain_name,
            description,
            supported_transaction_types: Vec::new(),
            validation_rules: Vec::new(),
        };
        assert(r.types() =~= Seq::<Seq<char>>::empty());
        assert(r.rules() =~= Map::<Seq<char>, Seq<char>>::empty());
        r
    }

    /// Adds a supported transaction type; one already present is left where
    /// it is.
    pub fn add_transaction_type(&mut self, transaction_type: String)
        requires
            old(self).wf(),
        ensures
            final(self).wf(),
            final(self).domain_name == old(self).domain_name,
            final(self).description == old(self).description,
            final(self).validation_rules == old(self).validation_rules,
            final(self).types() == add_type(old(self).types(), transaction_type@),
    {
        if !self.supports_transaction_type(transaction_type.as_str()) {
            let ghost t = transaction_type@;
            let ghost before = self.types();
            self.supported_transaction_types.push(transaction_type);
            assert(self.types() =~= before.push(t));
            assert forall|i: int, j: int|
                0 <= i < self.types().len() && 0 <= j < self.types().len() && i != j
                    implies self.types()[i] != self.types()[j] by {
                if i < before.len() && j < before.len() {
                } else if i == before.len() {
                    assert(before[j] == self.types()[j]);
                } else {
                    assert(before[i] == self.types()[i]);
                }
            }
        }
    }

    /// Sets the validation rule `rule_name` to `rule_value`, replacing an
    /// earlier value of that rule.
    pub fn add_validation_rule(&mut self, rule_name: String, rule_value: String)
        requires
            old(self).wf(),
        ensures
            final(self).wf(),
            final(self).domain_name == old(self).domain_name,
            final(self).description == old(self).description,
            final(self).supported_transaction_types == old(self).supported_transaction_types,
            final(self).rules() == old(self).rules().insert(rule_name@, rule_value@),
    {
        let ghost name = rule_name@;
        let ghost value = rule_value@;
        let ghost v0 = self.validation_rules@;
        let found = self.find_rule(rule_name.as_str());
        match found {
            Some(i) => {
                self.validation_rules.set(i, (rule_name, rule_value));
                let ghost v1 = self.validation_rules@;
                assert forall|a: int, b: int|
                    0 <= a < v1.len() && 0 <= b < v1.len() && #[trigger] v1[a].0@ == #[trigger] v1[b].0@
                        implies a == b by {
                    assert(v0[a].0@ == v1[a].0@);
                    assert(v0[b].0@ == v1[b].0@);
                }
                assert forall|k: Seq<char>|
                    #[trigger] rules_map(v1).contains_key(k) == rules_map(v0).insert(name, value).contains_key(k)
                    by {
                    if exists|j: int| has_name_at(v1, k, j) {
                        let j = choose|j: int| has_name_at(v1, k, j);
                        assert(has_name_at(v0, k, j));
                    }
                    if exists|j: int| has_name_at(v0, k, j) {
                        let j = choose|j: int| has_name_at(v0, k, j);
                        assert(has_name_at(v1, k, j));
                    }
                    if k == name {
                        assert(has_name_at(v1, k, i as int));
                    }
                }
                assert forall|k: Seq<char>| #[trigger] rules_map(v1).contains_key(k)
                    implies rules_map(v1)[k] == rules_map(v0).insert(name, value)[k] by {
                    let j = choose|j: int| has_name_at(v1, k, j);
                    if k == name {
                        assert(has_name_at(v1, k, i as int));
                    } else {
                        assert(has_name_at(v0, k, j));
                        let j0 = choose|j0: int| has_name_at(v0, k, j0);
                        assert(v0[j0].0@ == v0[j].0@);
                    }
                }
                assert(rules_map(v1) =~= rules_map(v0).insert(name, value));
            },
            None => {
                self.validation_rules.push((rule_name, rule_value));
                let ghost v1 = self.validation_rules@;
                assert forall|a: int, b: int|
                    0 <= a < v1.len() && 0 <= b < v1.len() && #[trigger] v1[a].0@ == #[trigger] v1[b].0@
                        implies a == b by {
                    if a < v0.len() && b < v0.len() {
                        assert(v0[a].0@ == v1[a].0@);
                        assert(v0[b].0@ == v1[b].0@);
                    } else if a < v0.len() {
                        assert(has_name_at(v0, name, a));
                    } else if b < v0.len() {
                        assert(has_name_at(v0, name, b));
                    }
                }
                assert forall|k: Seq<char>|
                    #[trigger] rules_map(v1).contains_key(k) == rules_map(v0).insert(name, value).contains_key(k)
                    by {
                    if exists|j: int| has_name_at(v1, k, j) {
                        let j = choose|j: int| has_name_at(v1, k, j);
                        if j < v0.len() {
                            assert(has_name_at(v0, k, j));
                        }
                    }
                    if exists|j: int| has_name_at(v0, k, j) {
                        let j = choose|j: int| has_name_at(v0, k, j);
                        assert(has_name_at(v1, k, j));
                    }
                    if k == name {
                        assert(has_name_at(v1, k, v0.len() as int));
                    }
                }
                assert forall|k: Seq<char>| #[trigger] rules_map(v1).contains_key(k)
                    implies rules_map(v1)[k] == rules_map(v0).insert(name, value)[k] by {
                    let j = choose|j: int| has_name_at(v1, k, j);
                    if k == name {
                        assert(has_name_at(v1, k, v0.len() as int));
                    } else {
                        assert(j < v0.len());
                        assert(has_name_at(v0, k, j));
                        let j0 = choose|j0: int| has_name_at(v0, k, j0);
                        assert(v1[j0].0@ == v1[j].0@);
                    }
                }
                assert(rules_map(v1) =~= rules_map(v0).insert(name, value));
            },
        }
    }

    /// The position of the rule named `rule_name`, if there is one.
    fn find_rule(&self, rule_name: &str) -> (r: Option<usize>)
        ensures
            match r {
                Some(i) => has_name_at(self.validation_rules@, rule_name@, i as int),
                None => !(exists|i: int| has_name_at(self.validation_rules@, rule_name@, i)),
            },
    {
        let key = rule_name.to_owned();
        let mut i: usize = 0;
        while i < self.validation_rules.len()
            invariant
                i <= self.validation_rules.len(),
                key@ == rule_name@,
                forall|j: int| 0 <= j < i ==> !has_name_at(self.validation_rules@, rule_name@, j),
            decreases self.validation_rules.len() - i,
        {
            if self.validation_rules[i].0 == key {
                return Some(i);
            }
            i += 1;
        }
        None
    }

    /// The value of the validation rule `rule_name`, if it is set.
    pub fn get_validation_rule(&self, rule_name: &str) -> (r: Option<String>)
        requires
            self.wf(),
        ensures
            match r {
                Some(v) => self.rules().contains_key(rule_name@) && self.rules()[rule_name@] == v@,
                None => !self.rules().contains_key(rule_name@),
            },
    {
        match self.find_rule(rule_name) {
            Some(i) => {
                let ghost v = self.validation_rules@;
                let ghost j = choose|j: int| has_name_at(v, rule_name@, j);
                assert(v[j].0@ == v[i as int].0@);
                Some(self.validation_rules[i].1.clone())
            },
            None => None,
        }
    }

    /// Whether `transaction_type` was added, matched exactly.
    pub fn supports_transaction_type(&self, transaction_type: &str) -> (r: bool)
        ensures
            r == self.types().contains(transaction_type@),
    {
        let key = transaction_type.to_owned();
        let mut i: usize = 0;
        while i < self.supported_transaction_types.len()
            invariant
                i <= self.supported_transaction_types.len(),
                key@ == transaction_type@,
                forall|j: int| 0 <= j < i ==> self.types()[j] != transaction_type@,
            decreases self.supported_transaction_types.len() - i,
        {
            if self.supported_transaction_types[i] == key {
                assert(self.types()[i as int] == transaction_type@);
                return true;
            }
            i += 1;
        }
        false
    }
}

} // verus!
