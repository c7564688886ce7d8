//! The environment that a spawned server gets.
use vstd::prelude::*;

verus! {

/// The variables that are set when `pairs` of name and value are set one after the other.
pub open spec fn pairs_map(pairs: Seq<(String, String)>) -> Map<Seq<char>, Seq<char>>
    decreases pairs.len(),
{
    if pairs.len() == 0 {
        Map::empty()
    } else {
        pairs_map(pairs.drop_last()).insert(pairs.last().0@, pairs.last().1@)
    }
}

/// No two of `pairs` have the same name.
pub open spec fn distinct_names(pairs: Seq<(String, String)>) -> bool {
    forall|i: int, j: int|
        0 <= i < j < pairs.len() ==> (#[trigger] pairs[i]).0@ != (#[trigger] pairs[j]).0@
}

/// Environment variables: each name has one value.
pub struct EnvMap {
    entries: Vec<(String, String)>,
}

impl View for EnvMap {
    type V = Map<Seq<char>, Seq<char>>;

    closed spec fn view(&self) -> Map<Seq<char>, Seq<char>> {
        pairs_map(self.entries@)
    }
}

impl EnvMap {
    #[verifier::type_invariant]
    spec fn well_formed(self) -> bool {
        distinct_names(self.entries@)
    }

    /// An environment without variables.
    pub fn new() -> (env: EnvMap)
        ensures
            env@ == Map::<Seq<char>, Seq<char>>::empty(),
    {
        EnvMap { entries: Vec::new() }
    }

    /// The environment in which `pairs` of name and value are set one after the other.
    pub fn from_pairs(pairs: Vec<(String, String)>) -> (env: EnvMap)
        ensures
            env@ == pairs_map(pairs@),
    {
        let mut env = EnvMap::new();
        env.extend(pairs);
        env
    }

    /// Where `name` stands among the entries.
    fn position(&self, name: &str) -> (at: Option<usize>)
        ensures
            match at {
                Some(i) => i < self.entries@.len() && self.entries@[i as int].0@ == name@,
                None => forall|j: int|
                    0 <= j < self.entries@.len() ==> (#[trigger] self.entries@[j]).0@ != name@,
            },
    {
        let wanted = name.to_owned();
        for i in 0..self.entries.len()
            invariant
                wanted@ == name@,
                forall|j: int| 0 <= j < i ==> (#[trigger] self.entries@[j]).0@ != name@,
        {
            if self.entries[i].0 == wanted {
                return Some(i);
            }
        }
        None
    }

    /// Sets `name` to `value`, whether or not it was set before.
    pub fn insert(&mut self, name: String, value: String)
        ensures
            final(self)@ == old(self)@.insert(name@, value@),
    {
        proof {
            use_type_invariant(&*self);
        }
        let at = self.position(name.as_str());
        let mut entries: Vec<(String, String)> = Vec::new();
        std::mem::swap(&mut self.entries, &mut entries);
        match at {
            Some(i) => {
                proof {
                    lemma_update(entries@, i as int, (name, value));
                }
                entries.set(i, (name, value));
            },
            None => {
                proof {
                    assert(entries@.push((name, value)).drop_last() =~= entries@);
                }
                entries.push((name, value));
            },
        }
        self.entries = entries;
    }

    /// Sets `pairs` of name and value one after the other.
    pub fn extend(&mut self, pairs: Vec<(String, String)>)
        ensures
            final(self)@ == old(self)@.union_prefer_right(pairs_map(pairs@)),
    {
        let ghost start = self@;
        proof {
            assert(start.union_prefer_right(pairs_map(pairs@.take(0))) =~= start);
        }
        for pair in it: pairs
            invariant
                it.seq() == pairs@,
                self@ == start.union_prefer_right(pairs_map(pairs@.take(it.index()))),
        {
            let (name, value) = pair;
            proof {
                assert(pairs@.take(it.index() + 1).drop_last() =~= pairs@.take(it.index()));
                assert(start.union_prefer_right(pairs_map(pairs@.take(it.index() + 1)))
                    =~= start.union_prefer_right(pairs_map(pairs@.take(it.index()))).insert(
                    name@,
                    value@,
                ));
            }
            self.insert(name, value);
        }
        proof {
            assert(pairs@.take(pairs@.len() as int) =~= pairs@);
        }
    }

    /// The value of `name`, if it is set.
    pub fn get(&self, name: &str) -> (value: Option<&String>)
        ensures
            match value {
                Some(value) => self@.contains_key(name@) && value@ == self@[name@],
                None => !self@.contains_key(name@),
            },
    {
        proof {
            use_type_invariant(self);
        }
        match self.position(name) {
            Some(i) => {
                proof {
                    law_last_pair_wins(self.entries@, i as int);
                }
                Some(&self.entries[i].1)
            },
            None => {
                proof {
                    lemma_absent(self.entries@, name@);
                }
                None
            },
        }
    }

    /// Whether `name` is set.
    pub fn contains_key(&self, name: &str) -> (found: bool)
        ensures
            found == self@.contains_key(name@),
    {
        self.get(name).is_some()
    }

    /// The variables as pairs of name and value, each name once.
    pub fn into_pairs(self) -> (pairs: Vec<(String, String)>)
        ensures
            pairs_map(pairs@) == self@,
            distinct_names(pairs@),
    {
        proof {
            use_type_invariant(&self);
        }
        self.entries
    }
}

proof fn lemma_update(pairs: Seq<(String, String)>, at: int, pair: (String, String))
    requires
        0 <= at < pairs.len(),
        distinct_names(pairs),
        pairs[at].0@ == pair.0@,
    ensures
        pairs_map(pairs.update(at, pair)) == pairs_map(pairs).insert(pair.0@, pair.1@),
    decreases pairs.len(),
{
    let updated = pairs.update(at, pair);
    let rest = pairs.drop_last();
    if at == pairs.len() - 1 {
        assert(updated.drop_last() =~= rest);
    } else {
        assert(updated.drop_last() =~= rest.update(at, pair));
        lemma_update(rest, at, pair);
        assert(pairs[at].0@ != pairs[pairs.len() - 1].0@);
    }
    assert(pairs_map(updated) =~= pairs_map(pairs).insert(pair.0@, pair.1@));
}

proof fn lemma_absent(pairs: Seq<(String, String)>, name: Seq<char>)
    requires
        forall|i: int| 0 <= i < pairs.len() ==> (#[trigger] pairs[i]).0@ != name,
    ensures
        !pairs_map(pairs).contains_key(name),
    decreases pairs.len(),
{
    if pairs.len() > 0 {
        let rest = pairs.drop_last();
        assert forall|i: int| 0 <= i < rest.len() implies (#[trigger] rest[i]).0@ != name by {
            assert(rest[i] == pairs[i]);
        }
        lemma_absent(rest, name);
        assert(pairs.last() == pairs[pairs.len() - 1]);
    }
}

/// Of several pairs with one name the last one counts.
pub proof fn law_last_pair_wins(pairs: Seq<(String, String)>, at: int)
    requires
        0 <= at < pairs.len(),
        forall|j: int| at < j < pairs.len() ==> (#[trigger] pairs[j]).0@ != pairs[at].0@,
    ensures
        pairs_map(pairs).contains_key(pairs[at].0@),
        pairs_map(pairs)[pairs[at].0@] == pairs[at].1@,
    decreases pairs.len(),
{
    if at < pairs.len() - 1 {
        let rest = pairs.drop_last();
        assert forall|j: int| at < j < rest.len() implies (#[trigger] rest[j]).0@
            != rest[at].0@ by {
            assert(rest[j] == pairs[j]);
        }
        law_last_pair_wins(rest, at);
        assert(pairs.last() == pairs[pairs.len() - 1]);
    }
}

/// A name that is set has the value of one of the pairs, and no later pair has that name.
pub proof fn law_variables_come_from_pairs(pairs: Seq<(String, String)>, name: Seq<char>)
    requires
        pairs_map(pairs).contains_key(name),
    ensures
        exists|i: int|
            0 <= i < pairs.len() && (#[trigger] pairs[i]).0@ == name && pairs_map(pairs)[name]
                == pairs[i].1@ && (forall|j: int|
                i < j < pairs.len() ==> (#[trigger] pairs[j]).0@ != name),
    decreases pairs.len(),
{
    let rest = pairs.drop_last();
    assert(pairs.last() == pairs[pairs.len() - 1]);
    if pairs.last().0@ != name {
        law_variables_come_from_pairs(rest, name);
        let i = choose|i: int|
            0 <= i < rest.len() && (#[trigger] rest[i]).0@ == name && pairs_map(rest)[name]
                == rest[i].1@ && (forall|j: int|
                i < j < rest.len() ==> (#[trigger] rest[j]).0@ != name);
        assert(rest[i] == pairs[i]);
        assert forall|j: int| i < j < pairs.len() implies (#[trigger] pairs[j]).0@ != name by {
            if j < rest.len() {
                assert(rest[j] == pairs[j]);
            }
        }
    }
}

/// What is looked up is the value of the last pair with that name, and nothing is found exactly
/// when no pair has it.
pub proof fn law_pairs_are_looked_up(
    pairs: Vec<(String, String)>,
    env: EnvMap,
    name: &str,
    value: Option<&String>,
)
    requires
        call_ensures(EnvMap::from_pairs, (pairs,), env),
        call_ensures(EnvMap::get, (&env, name), value),
    ensures
        match value {
            Some(value) => exists|i: int|
                0 <= i < pairs@.len() && (#[trigger] pairs@[i]).0@ == name@ && pairs@[i].1@
                    == value@ && (forall|j: int|
                    i < j < pairs@.len() ==> (#[trigger] pairs@[j]).0@ != name@),
            None => forall|i: int|
                0 <= i < pairs@.len() ==> (#[trigger] pairs@[i]).0@ != name@,
        },
{
    match value {
        Some(_) => {
            law_variables_come_from_pairs(pairs@, name@);
        },
        None => {
            assert forall|i: int| 0 <= i < pairs@.len() implies (#[trigger] pairs@[i]).0@
                != name@ by {
                if pairs@[i].0@ == name@ {
                    lemma_present(pairs@, i);
                }
            }
        },
    }
}

/// The name of every pair is set.
pub proof fn lemma_present(pairs: Seq<(String, String)>, at: int)
    requires
        0 <= at < pairs.len(),
    ensures
        pairs_map(pairs).contains_key(pairs[at].0@),
    decreases pairs.len(),
{
    if at < pairs.len() - 1 {
        assert(pairs.drop_last()[at] == pairs[at]);
        lemma_present(pairs.drop_last(), at);
    }
}

/// Whether a name is set can be asked without looking its value up.
pub proof fn law_set_names_have_values(
    env: EnvMap,
    name: &str,
    found: bool,
    value: Option<&String>,
)
    requires
        call_ensures(EnvMap::contains_key, (&env, name), found),
        call_ensures(EnvMap::get, (&env, name), value),
    ensures
        found <==> value is Some,
{
}

/// The pairs that an environment is taken apart into are its variables: no name stands there twice,
/// each pair is what is looked up under its name, and every name that is found is there.
pub proof fn law_pairs_are_the_variables(
    env: EnvMap,
    pairs: Vec<(String, String)>,
    name: &str,
    value: Option<&String>,
)
    requires
        call_ensures(EnvMap::into_pairs, (env,), pairs),
        call_ensures(EnvMap::get, (&env, name), value),
    ensures
        forall|i: int, j: int|
            0 <= i < j < pairs@.len() ==> (#[trigger] pairs@[i]).0@ != (#[trigger] pairs@[j]).0@,
        forall|i: int|
            0 <= i < pairs@.len() && (#[trigger] pairs@[i]).0@ == name@ ==> (value matches Some(
                value,
            ) && value@ == pairs@[i].1@),
        value is Some ==> exists|i: int|
            0 <= i < pairs@.len() && (#[trigger] pairs@[i]).0@ == name@,
{
    assert forall|i: int| 0 <= i < pairs@.len() && (#[trigger] pairs@[i]).0@ == name@ implies (
    value matches Some(value) && value@ == pairs@[i].1@) by {
        law_last_pair_wins(pairs@, i);
    }
    if value is Some {
        law_variables_come_from_pairs(pairs@, name@);
    }
}

/// The families of operating systems between which the variables differ.
#[derive(Debug, Clone, Copy, PartialEq, Eq)]
pub enum Platform {
    Unix,
    Windows,
}

/// The names of the variables that every server gets from the client's own environment.
pub open spec fn default_env_names(platform: Platform) -> Seq<Seq<char>> {
    match platform {
        Platform::Unix => seq![
            "HOME"@,
            "LOGNAME"@,
            "PATH"@,
            "SHELL"@,
            "USER"@,
            "__CF_USER_TEXT_ENCODING"@,
            "LANG"@,
            "LC_ALL"@,
            "TERM"@,
            "TMPDIR"@,
            "TZ"@,
        ],
        Platform::Windows => seq![
            "PATH"@,
            "PATHEXT"@,
            "USERNAME"@,
            "USERDOMAIN"@,
            "USERPROFILE"@,
            "TEMP"@,
            "TMP"@,
        ],
    }
}

/// The environment variables that are always handed on when a server is spawned.
pub fn default_env_vars(platform: Platform) -> (names: Vec<&'static str>)
    ensures
        names@.map_values(|name: &'static str| name@) == default_env_names(platform),
{
    let names: Vec<&'static str> = match platform {
        Platform::Unix => vec![
            "HOME",
            "LOGNAME",
            "PATH",
            "SHELL",
            "USER",
            "__CF_USER_TEXT_ENCODING",
            "LANG",
            "LC_ALL",
            "TERM",
            "TMPDIR",
            "TZ",
        ],
        Platform::Windows => vec![
            "PATH",
            "PATHEXT",
            "USERNAME",
            "USERDOMAIN",
            "USERPROFILE",
            "TEMP",
            "TMP",
        ],
    };
    proof {
        assert(names@.map_values(|name: &'static str| name@) =~= default_env_names(platform));
    }
    names
}

/// What a server finds in its environment: the default variables that the client itself has, and
/// over them the extra ones.
pub open spec fn server_env(
    platform: Platform,
    own_env: Map<Seq<char>, Seq<char>>,
    extra_env: Map<Seq<char>, Seq<char>>,
) -> Map<Seq<char>, Seq<char>> {
    own_env.restrict(default_env_names(platform).to_set()).union_prefer_right(extra_env)
}

/// The variables of an environment that may be left out.
pub open spec fn env_or_empty(env: Option<EnvMap>) -> Map<Seq<char>, Seq<char>> {
    match env {
        Some(env) => env@,
        None => Map::empty(),
    }
}

/// The environment for a server. `own_env` is the client's environment as far as it is Unicode;
/// `extra_env` comes from the configuration of the server.
pub fn create_env_for_mcp_server(
    platform: Platform,
    own_env: &EnvMap,
    extra_env: Option<EnvMap>,
) -> (env: EnvMap)
    ensures
        env@ == server_env(platform, own_env@, env_or_empty(extra_env)),
        extra_env matches Some(extra) ==> forall|name: Seq<char>|
            extra@.contains_key(name) ==> (#[trigger] env@.contains_key(name)) && env@[name]
                == extra@[name],
        forall|name: Seq<char>|
            (extra_env matches Some(extra) ==> !extra@.contains_key(name)) ==> ((
            #[trigger] env@.contains_key(name)) <==> default_env_names(platform).contains(name)
                && own_env@.contains_key(name)) && (env@.contains_key(name) ==> env@[name]
                == own_env@[name]),
{
    let names = default_env_vars(platform);
    let ghost all = default_env_names(platform);
    let mut env = EnvMap::new();
    proof {
        assert(names@.map_values(|name: &'static str| name@) == all);
        assert(own_env@.restrict(all.take(0).to_set()) =~= env@);
    }
    for i in 0..names.len()
        invariant
            names@.map_values(|name: &'static str| name@) == all,
            env@ == own_env@.restrict(all.take(i as int).to_set()),
    {
        let name = names[i];
        let ghost before = all.take(i as int);
        let ghost after = all.take(i + 1);
        proof {
            assert(name@ == all[i as int]);
            assert(after =~= before.push(name@));
            assert forall|n: Seq<char>| #[trigger] after.to_set().contains(n) <==>
                before.to_set().contains(n) || n == name@ by {
                if before.contains(n) {
                    let k = choose|k: int| 0 <= k < before.len() && before[k] == n;
                    assert(after[k] == n);
                }
                if n == name@ {
                    assert(after[i as int] == n);
                }
                if after.contains(n) {
                    let k = choose|k: int| 0 <= k < after.len() && after[k] == n;
                    if k < i {
                        assert(before[k] == n);
                    }
                }
            }
        }
        match own_env.get(name) {
            Some(value) => {
                proof {
                    assert(own_env@.restrict(after.to_set()) =~= own_env@.restrict(
                        before.to_set(),
                    ).insert(name@, value@));
                }
                env.insert(name.to_owned(), value.clone());
            },
            None => {
                proof {
                    assert(own_env@.restrict(after.to_set()) =~= own_env@.restrict(
                        before.to_set(),
                    ));
                }
            },
        }
    }
    proof {
        assert(all.take(names@.len() as int) =~= all);
    }
    match extra_env {
        Some(extra_env) => {
            env.extend(extra_env.into_pairs());
        },
        None => {
            proof {
                assert(server_env(platform, own_env@, Map::empty()) =~= env@);
            }
        },
    }
    env
}

/// What is configured for a server reaches it, whatever the client's own environment says.
pub proof fn law_extra_env_wins(
    platform: Platform,
    own_env: Map<Seq<char>, Seq<char>>,
    extra_env: Map<Seq<char>, Seq<char>>,
    name: Seq<char>,
)
    requires
        extra_env.contains_key(name),
    ensures
        server_env(platform, own_env, extra_env).contains_key(name),
        server_env(platform, own_env, extra_env)[name] == extra_env[name],
{
}

/// A default variable that the client has and that is not configured otherwise reaches the server
/// unchanged.
pub proof fn law_default_env_is_inherited(
    platform: Platform,
    own_env: Map<Seq<char>, Seq<char>>,
    extra_env: Map<Seq<char>, Seq<char>>,
    name: Seq<char>,
)
    requires
        default_env_names(platform).contains(name),
        own_env.contains_key(name),
        !extra_env.contains_key(name),
    ensures
        server_env(platform, own_env, extra_env).contains_key(name),
        server_env(platform, own_env, extra_env)[name] == own_env[name],
{
}

/// Nothing else reaches the server: no variable that is neither a default one which the client
/// has nor configured for the server.
pub proof fn law_no_other_env_leaks(
    platform: Platform,
    own_env: Map<Seq<char>, Seq<char>>,
    extra_env: Map<Seq<char>, Seq<char>>,
    name: Seq<char>,
)
    requires
        !extra_env.contains_key(name),
        !default_env_names(platform).contains(name) || !own_env.contains_key(name),
    ensures
        !server_env(platform, own_env, extra_env).contains_key(name),
{
}

/// Two clients whose default variables agree give their servers the same environment.
pub proof fn law_env_depends_on_default_vars_only(
    platform: Platform,
    one_env: Map<Seq<char>, Seq<char>>,
    other_env: Map<Seq<char>, Seq<char>>,
    extra_env: Map<Seq<char>, Seq<char>>,
)
    requires
        forall|name: Seq<char>| #[trigger]
            default_env_names(platform).contains(name) ==> one_env.get(name) == other_env.get(name),
    ensures
        server_env(platform, one_env, extra_env) == server_env(platform, other_env, extra_env),
{
    let names = default_env_names(platform).to_set();
    assert forall|name: Seq<char>| names.contains(name) implies #[trigger] one_env.get(name)
        == other_env.get(name) by {
        assert(default_env_names(platform).contains(name));
    }
    assert(one_env.restrict(names) =~= other_env.restrict(names)) by {
        assert forall|name: Seq<char>| names.contains(name) implies one_env.contains_key(name)
            == other_env.contains_key(name) by {
            assert(one_env.get(name) == other_env.get(name));
        }
        assert forall|name: Seq<char>| names.contains(name) && one_env.contains_key(
            name,
        ) implies one_env[name] == other_env[name] by {
            assert(one_env.get(name) == other_env.get(name));
        }
    }
}

/// An environment that is given has its own variables and no others, and one that is left out has
/// none.
pub proof fn law_extra_env_is_taken_as_it_is(env: EnvMap)
    ensures
        env_or_empty(Some(env)) == env@,
        env_or_empty(None) == Map::<Seq<char>, Seq<char>>::empty(),
{
}

/// Each variable that is configured for a server is set for it, with the configured value.
pub proof fn law_configured_variables_are_set(
    platform: Platform,
    own_env: EnvMap,
    extra_env: EnvMap,
    env: EnvMap,
    name: &str,
    configured: Option<&String>,
    value: Option<&String>,
)
    requires
        call_ensures(create_env_for_mcp_server, (platform, &own_env, Some(extra_env)), env),
        call_ensures(EnvMap::get, (&extra_env, name), configured),
        call_ensures(EnvMap::get, (&env, name), value),
        configured is Some,
    ensures
        value matches Some(value) && value@ == configured->Some_0@,
{
}

/// A name that is not configured for a server, because nothing is or because other names are, is
/// set for it exactly when it is among the default variables and the client has it, and then it has
/// the client's value.
pub proof fn law_other_variables_are_the_default_ones(
    platform: Platform,
    own_env: EnvMap,
    extra_env: Option<EnvMap>,
    env: EnvMap,
    names: Vec<&'static str>,
    name: &str,
    own: Option<&String>,
    value: Option<&String>,
)
    requires
        call_ensures(create_env_for_mcp_server, (platform, &own_env, extra_env), env),
        call_ensures(default_env_vars, (platform,), names),
        call_ensures(EnvMap::get, (&own_env, name), own),
        call_ensures(EnvMap::get, (&env, name), value),
        extra_env matches Some(extra) ==> call_ensures(EnvMap::get, (&extra, name), None),
    ensures
        value is Some <==> own is Some && exists|i: int|
            0 <= i < names@.len() && (#[trigger] names@[i])@ == name@,
        value is Some ==> value->Some_0@ == own->Some_0@,
{
    let all = default_env_names(platform);
    assert(names@.map_values(|name: &'static str| name@) == all);
    assert(forall|i: int| 0 <= i < names@.len() ==> all[i] == (#[trigger] names@[i])@);
    if all.contains(name@) {
        let i = choose|i: int| 0 <= i < all.len() && all[i] == name@;
        assert(names@[i]@ == name@);
    }
}

} // verus!
