//! The secrets that the services on a host get from the environment of whoever deploys.
use crate::quoting;
use vstd::prelude::*;
use vstd::string::*;

verus! {

/// The variables that hold the secrets, in the order in which they are passed on.
pub open spec fn secret_names() -> Seq<Seq<char>> {
    seq![
        "COOKIE_KEY"@,
        "GOOGLE_CLIENT_SECRET"@,
        "JWT_EC_PEM"@,
        "CLIENT_JWT_ED_PEM"@,
        "APPLE_AUTH_KEY_PEM"@,
        "WHATSAPP_API_KEY"@,
        "DRAGONFLY_REDIS_STORE_PASSWORD"@,
        "DRAGONFLY_REDIS_STORE_HOSTS"@,
        "DRAGONFLY_REDIS_STORE_CA_CERT"@,
        "DRAGONFLY_REDIS_STORE_CLIENT_CERT"@,
        "DRAGONFLY_REDIS_STORE_CLIENT_KEY"@,
    ]
}

/// Gives the names of the variables that hold the secrets.
pub fn secret_keys() -> (keys: Vec<String>)
    ensures
        keys.deep_view() == secret_names(),
{
    let mut keys: Vec<String> = Vec::new();
    keys.push("COOKIE_KEY".to_string());
    keys.push("GOOGLE_CLIENT_SECRET".to_string());
    keys.push("JWT_EC_PEM".to_string());
    keys.push("CLIENT_JWT_ED_PEM".to_string());
    keys.push("APPLE_AUTH_KEY_PEM".to_string());
    keys.push("WHATSAPP_API_KEY".to_string());
    keys.push("DRAGONFLY_REDIS_STORE_PASSWORD".to_string());
    keys.push("DRAGONFLY_REDIS_STORE_HOSTS".to_string());
    keys.push("DRAGONFLY_REDIS_STORE_CA_CERT".to_string());
    keys.push("DRAGONFLY_REDIS_STORE_CLIENT_CERT".to_string());
    keys.push("DRAGONFLY_REDIS_STORE_CLIENT_KEY".to_string());
    assert(keys.deep_view() =~= secret_names());
    keys
}

/// A secret that is not passed on.
#[derive(Debug, PartialEq)]
pub struct SkippedSecret {
    /// The variable's name.
    pub key: String,
    /// Whether the variable is set: then it is empty.
    pub set: bool,
}

impl DeepView for SkippedSecret {
    type V = (Seq<char>, bool);

    open spec fn deep_view(&self) -> (Seq<char>, bool) {
        (self.key@, self.set)
    }
}

/// The secrets, sorted out.
#[derive(Debug, PartialEq)]
pub struct SecretEnvs {
    /// The secrets that are passed on, by name and value.
    pub envs: Vec<(String, String)>,
    /// Those that are not.
    pub skipped: Vec<SkippedSecret>,
}

/// Whether a variable's value is passed on: it is set, and not to the empty text.
pub open spec fn usable(value: Option<Seq<char>>) -> bool {
    value matches Some(v) && v.len() > 0
}

/// The secrets that are passed on, where the variable `keys[i]` has the value `values[i]`.
pub open spec fn forwarded(
    keys: Seq<Seq<char>>,
    values: Seq<Option<Seq<char>>>,
) -> Seq<(Seq<char>, Seq<char>)>
    decreases values.len(),
{
    if values.len() == 0 {
        Seq::empty()
    } else {
        let before = forwarded(keys.drop_last(), values.drop_last());
        if usable(values.last()) {
            before.push((keys.last(), values.last()->0))
        } else {
            before
        }
    }
}

/// The variables that are left out, each with whether it is set.
pub open spec fn left_out(
    keys: Seq<Seq<char>>,
    values: Seq<Option<Seq<char>>>,
) -> Seq<(Seq<char>, bool)>
    decreases values.len(),
{
    if values.len() == 0 {
        Seq::empty()
    } else {
        let before = left_out(keys.drop_last(), values.drop_last());
        if usable(values.last()) {
            before
        } else {
            before.push((keys.last(), values.last() is Some))
        }
    }
}

/// Sorts out the secrets: `values` are the variables' values, in the order of [`secret_keys`].
/// A variable that is not set or empty is left out, and reported.
pub fn secret_envs(values: &Vec<Option<String>>) -> (result: SecretEnvs)
    requires
        values@.len() == secret_names().len(),
    ensures
        result.envs.deep_view() == forwarded(secret_names(), values.deep_view()),
        result.skipped.deep_view() == left_out(secret_names(), values.deep_view()),
        forall|i: int|
            0 <= i < result.skipped@.len() ==> (#[trigger] result.skipped@[i]).key@ == left_out(
                secret_names(),
                values.deep_view(),
            )[i].0 && result.skipped@[i].set == left_out(secret_names(), values.deep_view())[i].1,
{
    let keys = secret_keys();
    let ghost names = secret_names();
    let ghost all = values.deep_view();
    let mut envs: Vec<(String, String)> = Vec::new();
    let mut skipped: Vec<SkippedSecret> = Vec::new();
    assert(envs.deep_view() =~= forwarded(names.take(0), all.take(0)));
    assert(skipped.deep_view() =~= left_out(names.take(0), all.take(0)));
    assert(keys@.len() == keys.deep_view().len());
    for i in 0..values.len()
        invariant
            names == keys.deep_view(),
            all == values.deep_view(),
            keys@.len() == values@.len(),
            envs.deep_view() == forwarded(names.take(i as int), all.take(i as int)),
            skipped.deep_view() == left_out(names.take(i as int), all.take(i as int)),
    {
        let ghost old_envs = envs.deep_view();
        let ghost old_skipped = skipped.deep_view();
        proof {
            let more = i as int + 1;
            assert(names.take(more).drop_last() =~= names.take(i as int));
            assert(all.take(more).drop_last() =~= all.take(i as int));
            assert(names.take(more).last() == keys@[i as int]@);
            assert(all.take(more).last() == values@[i as int].deep_view());
        }
        let key = keys[i].clone();
        match &values[i] {
            Some(value) => {
                if value.as_str().is_empty() {
                    skipped.push(SkippedSecret { key, set: true });
                    assert(skipped.deep_view() =~= old_skipped.push((keys@[i as int]@, true)));
                } else {
                    envs.push((key, value.clone()));
                    assert(envs.deep_view() =~= old_envs.push((keys@[i as int]@, value@)));
                }
            },
            None => {
                skipped.push(SkippedSecret { key, set: false });
                assert(skipped.deep_view() =~= old_skipped.push((keys@[i as int]@, false)));
            },
        }
    }
    assert(names.take(names.len() as int) =~= names);
    assert(all.take(all.len() as int) =~= all);
    assert forall|i: int| 0 <= i < skipped@.len() implies (#[trigger] skipped@[i]).key@ == left_out(
        names,
        all,
    )[i].0 && skipped@[i].set == left_out(names, all)[i].1 by {
        assert(skipped.deep_view()[i] == skipped@[i].deep_view());
    }
    SecretEnvs { envs, skipped }
}

/// A value is passed on under a name exactly where the variable of that name is set to it and it
/// is not empty: nothing is lost, changed or made up.
pub proof fn exactly_the_set_secrets_are_forwarded(
    keys: Seq<Seq<char>>,
    values: Seq<Option<Seq<char>>>,
    key: Seq<char>,
    value: Seq<char>,
)
    requires
        keys.len() == values.len(),
    ensures
        forwarded(keys, values).contains((key, value)) <==> (value.len() > 0 && exists|i: int|
            0 <= i < keys.len() && #[trigger] keys[i] == key && values[i] == Some(value)),
    decreases values.len(),
{
    if values.len() > 0 {
        let fewer_keys = keys.drop_last();
        let fewer_values = values.drop_last();
        let before = forwarded(fewer_keys, fewer_values);
        let after = forwarded(keys, values);
        exactly_the_set_secrets_are_forwarded(fewer_keys, fewer_values, key, value);
        if before.contains((key, value)) {
            let i = choose|i: int|
                0 <= i < fewer_keys.len() && #[trigger] fewer_keys[i] == key && fewer_values[i]
                    == Some(value);
            assert(keys[i] == key && values[i] == Some(value));
            let j = before.index_of((key, value));
            assert(after[j] == (key, value));
        }
        if value.len() > 0 && exists|i: int|
            0 <= i < keys.len() && #[trigger] keys[i] == key && values[i] == Some(value) {
            let i = choose|i: int|
                0 <= i < keys.len() && #[trigger] keys[i] == key && values[i] == Some(value);
            if i < fewer_keys.len() {
                assert(fewer_keys[i] == key && fewer_values[i] == Some(value));
            } else {
                assert(after.last() == (key, value));
            }
        }
        if after.contains((key, value)) && !before.contains((key, value)) {
            let j = after.index_of((key, value));
            if j < before.len() {
                assert(before[j] == (key, value));
            }
            assert(keys[keys.len() - 1] == key && values[values.len() - 1] == Some(value));
        }
    }
}

/// Each variable is either passed on or reported as left out.
pub proof fn every_secret_is_accounted_for(
    keys: Seq<Seq<char>>,
    values: Seq<Option<Seq<char>>>,
)
    ensures
        forwarded(keys, values).len() + left_out(keys, values).len() == values.len(),
    decreases values.len(),
{
    if values.len() > 0 {
        every_secret_is_accounted_for(keys.drop_last(), values.drop_last());
    }
}

/// The names under which secrets are passed on mean nothing special to a shell.
pub proof fn forwarded_names_are_plain(values: Seq<Option<Seq<char>>>)
    requires
        values.len() == secret_names().len(),
    ensures
        forall|i: int|
            0 <= i < forwarded(secret_names(), values).len() ==> quoting::plain(
                (#[trigger] forwarded(secret_names(), values)[i]).0,
            ),
{
    let names = secret_names();
    let passed = forwarded(names, values);
    reveal_strlit("COOKIE_KEY");
    reveal_strlit("GOOGLE_CLIENT_SECRET");
    reveal_strlit("JWT_EC_PEM");
    reveal_strlit("CLIENT_JWT_ED_PEM");
    reveal_strlit("APPLE_AUTH_KEY_PEM");
    reveal_strlit("WHATSAPP_API_KEY");
    reveal_strlit("DRAGONFLY_REDIS_STORE_PASSWORD");
    reveal_strlit("DRAGONFLY_REDIS_STORE_HOSTS");
    reveal_strlit("DRAGONFLY_REDIS_STORE_CA_CERT");
    reveal_strlit("DRAGONFLY_REDIS_STORE_CLIENT_CERT");
    reveal_strlit("DRAGONFLY_REDIS_STORE_CLIENT_KEY");
    assert forall|i: int| 0 <= i < names.len() implies quoting::plain(#[trigger] names[i]) by {}
    assert forall|i: int| 0 <= i < passed.len() implies quoting::plain(
        (#[trigger] passed[i]).0,
    ) by {
        let (key, value) = passed[i];
        assert(passed.contains((key, value)));
        exactly_the_set_secrets_are_forwarded(names, values, key, value);
        let j = choose|j: int|
            0 <= j < names.len() && #[trigger] names[j] == key && values[j] == Some(value);
        assert(quoting::plain(names[j]));
    }
}

/// The variables are looked at one by one, in order: what is passed on of a list is what is passed
/// on of its front, followed by what is passed on of its back. A single variable is passed on with
/// exactly its value, unless that is empty or missing.
pub proof fn forwarding_goes_in_order(
    keys: Seq<Seq<char>>,
    values: Seq<Option<Seq<char>>>,
    more_keys: Seq<Seq<char>>,
    more_values: Seq<Option<Seq<char>>>,
    key: Seq<char>,
    value: Seq<char>,
)
    requires
        keys.len() == values.len(),
        more_keys.len() == more_values.len(),
    ensures
        forwarded(keys + more_keys, values + more_values) == forwarded(keys, values) + forwarded(
            more_keys,
            more_values,
        ),
        value.len() > 0 ==> forwarded(seq![key], seq![Some(value)]) == seq![(key, value)],
        value.len() == 0 ==> forwarded(seq![key], seq![Some(value)]).len() == 0,
        forwarded(seq![key], seq![None::<Seq<char>>]).len() == 0,
    decreases more_values.len(),
{
    lemma_single(key, Some(value));
    lemma_single(key, None);
    if more_values.len() == 0 {
        assert(keys + more_keys =~= keys);
        assert(values + more_values =~= values);
        assert(forwarded(keys, values) + forwarded(more_keys, more_values) =~= forwarded(
            keys,
            values,
        ));
    } else {
        let fewer_keys = more_keys.drop_last();
        let fewer_values = more_values.drop_last();
        forwarding_goes_in_order(keys, values, fewer_keys, fewer_values, key, value);
        assert((keys + more_keys).drop_last() =~= keys + fewer_keys);
        assert((values + more_values).drop_last() =~= values + fewer_values);
        assert(forwarded(keys + more_keys, values + more_values) =~= forwarded(keys, values)
            + forwarded(more_keys, more_values));
    }
}

proof fn lemma_single(key: Seq<char>, value: Option<Seq<char>>)
    ensures
        forwarded(seq![key], seq![value]) == if usable(value) {
            seq![(key, value->0)]
        } else {
            Seq::empty()
        },
        left_out(seq![key], seq![value]) == if usable(value) {
            Seq::empty()
        } else {
            seq![(key, value is Some)]
        },
{
    let none = Seq::<Option<Seq<char>>>::empty();
    assert(seq![value].drop_last() =~= none);
    assert(forwarded(seq![key].drop_last(), none) =~= Seq::empty());
    assert(left_out(seq![key].drop_last(), none) =~= Seq::empty());
    assert(seq![key].last() == key && seq![value].last() == value);
    if usable(value) {
        assert(forwarded(seq![key], seq![value]) =~= seq![(key, value->0)]);
    } else {
        assert(left_out(seq![key], seq![value]) =~= seq![(key, value is Some)]);
    }
}

/// What is left out is reported in order too: a variable that is not set as not set, one that is
/// set to the empty text as set, and no other.
pub proof fn reporting_goes_in_order(
    keys: Seq<Seq<char>>,
    values: Seq<Option<Seq<char>>>,
    more_keys: Seq<Seq<char>>,
    more_values: Seq<Option<Seq<char>>>,
    key: Seq<char>,
    value: Seq<char>,
)
    requires
        keys.len() == values.len(),
        more_keys.len() == more_values.len(),
    ensures
        left_out(keys + more_keys, values + more_values) == left_out(keys, values) + left_out(
            more_keys,
            more_values,
        ),
        value.len() > 0 ==> left_out(seq![key], seq![Some(value)]).len() == 0,
        value.len() == 0 ==> left_out(seq![key], seq![Some(value)]) == seq![(key, true)],
        left_out(seq![key], seq![None::<Seq<char>>]) == seq![(key, false)],
    decreases more_values.len(),
{
    lemma_single(key, Some(value));
    lemma_single(key, None);
    if more_values.len() == 0 {
        assert(keys + more_keys =~= keys);
        assert(values + more_values =~= values);
        assert(left_out(keys, values) + left_out(more_keys, more_values) =~= left_out(
            keys,
            values,
        ));
    } else {
        let fewer_keys = more_keys.drop_last();
        let fewer_values = more_values.drop_last();
        reporting_goes_in_order(keys, values, fewer_keys, fewer_values, key, value);
        assert((keys + more_keys).drop_last() =~= keys + fewer_keys);
        assert((values + more_values).drop_last() =~= values + fewer_values);
        assert(left_out(keys + more_keys, values + more_values) =~= left_out(keys, values)
            + left_out(more_keys, more_values));
    }
}

/// There are eleven secrets, each with a name of its own.
pub proof fn secrets_have_names_of_their_own(i: int, j: int)
    requires
        0 <= i < j < secret_names().len(),
    ensures
        secret_names().len() == 11,
        secret_names()[i] != secret_names()[j],
{
    reveal_strlit("COOKIE_KEY");
    reveal_strlit("GOOGLE_CLIENT_SECRET");
    reveal_strlit("JWT_EC_PEM");
    reveal_strlit("CLIENT_JWT_ED_PEM");
    reveal_strlit("APPLE_AUTH_KEY_PEM");
    reveal_strlit("WHATSAPP_API_KEY");
    reveal_strlit("DRAGONFLY_REDIS_STORE_PASSWORD");
    reveal_strlit("DRAGONFLY_REDIS_STORE_HOSTS");
    reveal_strlit("DRAGONFLY_REDIS_STORE_CA_CERT");
    reveal_strlit("DRAGONFLY_REDIS_STORE_CLIENT_CERT");
    reveal_strlit("DRAGONFLY_REDIS_STORE_CLIENT_KEY");
    let a = secret_names()[i];
    let b = secret_names()[j];
    if a.len() == b.len() {
        // Only two names are equally long, and they start differently.
        assert(a[0] != b[0]);
    }
}

} // verus!
