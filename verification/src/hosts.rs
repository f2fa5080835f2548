//! The list of hosts to deploy to, written as one text with spaces in between.
use vstd::prelude::*;
use vstd::string::*;

verus! {

/// How many characters stand in front of the first space.
pub open spec fn field_len(text: Seq<char>) -> nat
    decreases text.len(),
{
    if text.len() == 0 || text[0] == ' ' {
        0
    } else {
        1 + field_len(text.drop_first())
    }
}

/// The pieces of a text between its spaces, without the empty ones.
pub open spec fn fields(text: Seq<char>) -> Seq<Seq<char>>
    decreases text.len(),
{
    if text.len() == 0 {
        Seq::empty()
    } else if text[0] == ' ' {
        fields(text.drop_first())
    } else {
        let n = field_len(text);
        if 0 < n <= text.len() {
            seq![text.take(n as int)] + fields(text.skip(n as int))
        } else {
            Seq::empty()
        }
    }
}

/// Whether a text can be a piece: it is not empty and holds no space.
pub open spec fn is_field(text: Seq<char>) -> bool {
    text.len() > 0 && !text.contains(' ')
}

proof fn lemma_field_len(word: Seq<char>, rest: Seq<char>)
    requires
        !word.contains(' '),
        rest.len() == 0 || rest[0] == ' ',
    ensures
        field_len(word + rest) == word.len(),
    decreases word.len(),
{
    if word.len() == 0 {
        assert(word + rest =~= rest);
    } else {
        let tail = word.drop_first();
        assert((word + rest).drop_first() =~= tail + rest);
        assert(word.contains(word[0]));
        assert(!tail.contains(' ')) by {
            if tail.contains(' ') {
                assert(word[tail.index_of(' ') + 1] == ' ');
            }
        }
        lemma_field_len(tail, rest);
    }
}

proof fn lemma_first_field(word: Seq<char>, rest: Seq<char>)
    requires
        is_field(word),
        rest.len() == 0 || rest[0] == ' ',
    ensures
        fields(word + rest) == seq![word] + fields(rest),
{
    lemma_field_len(word, rest);
    assert(word.contains(word[0]));
    assert((word + rest).take(word.len() as int) =~= word);
    assert((word + rest).skip(word.len() as int) =~= rest);
}

/// Splits a list of hosts at its spaces; several spaces in a row count as one.
pub fn host_list(text: &str) -> (hosts: Vec<String>)
    ensures
        hosts.deep_view() == fields(text@),
{
    let mut hosts: Vec<String> = Vec::new();
    let mut current = String::new();
    assert(current@ + text@.skip(0) =~= text@);
    assert(hosts.deep_view() + fields(text@) =~= fields(text@));
    for c in it: text.chars()
        invariant
            it.seq() == text@,
            !current@.contains(' '),
            hosts.deep_view() + fields(current@ + text@.skip(it.index() as int)) == fields(text@),
    {
        let ghost rest = text@.skip(it.index() as int);
        let ghost tail = text@.skip(it.index() as int + 1);
        let ghost word = current@;
        let ghost before = hosts.deep_view();
        assert(rest =~= seq![c] + tail);
        if c == ' ' {
            assert(rest.drop_first() =~= tail);
            if !current.as_str().is_empty() {
                proof {
                    lemma_first_field(word, rest);
                }
                hosts.push(current);
                assert(hosts.deep_view() =~= before.push(word));
                assert(before + (seq![word] + fields(tail)) =~= before.push(word) + fields(tail));
                current = String::new();
            } else {
                assert(word + rest =~= rest);
            }
            assert(current@ + tail =~= tail);
        } else {
            current.push(c);
            assert(current@ + tail =~= word + rest);
            assert(!current@.contains(' ')) by {
                if current@.contains(' ') {
                    let i = current@.index_of(' ');
                    assert(word[i] == ' ');
                }
            }
        }
    }
    let ghost word = current@;
    let ghost before = hosts.deep_view();
    assert(word + text@.skip(text@.len() as int) =~= word);
    if !current.as_str().is_empty() {
        proof {
            lemma_first_field(word, Seq::empty());
            assert(word + Seq::<char>::empty() =~= word);
        }
        hosts.push(current);
        assert(hosts.deep_view() =~= before.push(word));
        assert(before + (seq![word] + fields(Seq::empty())) =~= before.push(word));
    } else {
        assert(before + fields(word) =~= before);
    }
    hosts
}

/// A list of hosts as one text: each host with a space behind it.
pub open spec fn spaced(hosts: Seq<Seq<char>>) -> Seq<char>
    decreases hosts.len(),
{
    if hosts.len() == 0 {
        Seq::empty()
    } else {
        hosts[0] + seq![' '] + spaced(hosts.drop_first())
    }
}

/// A list that is written with a space behind each host is read back as it was.
pub proof fn host_list_is_read_back(hosts: Seq<Seq<char>>)
    requires
        forall|i: int| 0 <= i < hosts.len() ==> is_field(#[trigger] hosts[i]),
    ensures
        fields(spaced(hosts)) == hosts,
    decreases hosts.len(),
{
    if hosts.len() > 0 {
        let others = hosts.drop_first();
        let rest = seq![' '] + spaced(others);
        host_list_is_read_back(others);
        assert(is_field(hosts[0]));
        assert(spaced(hosts) =~= hosts[0] + rest);
        lemma_first_field(hosts[0], rest);
        assert(rest.drop_first() =~= spaced(others));
        assert(seq![hosts[0]] + others =~= hosts);
    }
}

/// Every host of a list is a piece of text without spaces.
pub proof fn hosts_are_fields(text: Seq<char>)
    ensures
        forall|i: int| 0 <= i < fields(text).len() ==> is_field(#[trigger] fields(text)[i]),
    decreases text.len(),
{
    if text.len() > 0 {
        if text[0] == ' ' {
            hosts_are_fields(text.drop_first());
            assert(fields(text) == fields(text.drop_first()));
        } else {
            let n = field_len(text) as int;
            lemma_field_has_no_space(text);
            hosts_are_fields(text.skip(n));
            let others = fields(text.skip(n));
            assert forall|i: int| 0 <= i < fields(text).len() implies is_field(
                #[trigger] fields(text)[i],
            ) by {
                if i > 0 {
                    assert(fields(text)[i] == others[i - 1]);
                }
            }
        }
    }
}

proof fn lemma_field_has_no_space(text: Seq<char>)
    ensures
        field_len(text) <= text.len(),
        !text.take(field_len(text) as int).contains(' '),
    decreases text.len(),
{
    if text.len() > 0 && text[0] != ' ' {
        let tail = text.drop_first();
        lemma_field_has_no_space(tail);
        let piece = text.take(field_len(text) as int);
        let shorter = tail.take(field_len(tail) as int);
        if piece.contains(' ') {
            let i = piece.index_of(' ');
            assert(shorter[i - 1] == ' ');
        }
    }
}

proof fn lemma_field_ends(text: Seq<char>)
    ensures
        field_len(text) <= text.len(),
        field_len(text) == text.len() || text[field_len(text) as int] == ' ',
    decreases text.len(),
{
    if text.len() > 0 && text[0] != ' ' {
        lemma_field_ends(text.drop_first());
    }
}

/// A space separates: the hosts on its two sides are read by themselves, and a text without spaces
/// is a single host, as it stands.
pub proof fn a_space_separates_hosts(a: Seq<char>, b: Seq<char>)
    ensures
        fields(a + seq![' '] + b) == fields(a) + fields(b),
        a.len() > 0 && !a.contains(' ') ==> fields(a) == seq![a],
        fields(Seq::empty()) == Seq::<Seq<char>>::empty(),
    decreases a.len(),
{
    let text = a + seq![' '] + b;
    if a.len() > 0 && !a.contains(' ') {
        lemma_first_field(a, Seq::empty());
        assert(a + Seq::<char>::empty() =~= a);
        assert(seq![a] + fields(Seq::empty()) =~= seq![a]);
    }
    if a.len() == 0 {
        assert(text.drop_first() =~= b);
        assert(fields(a) + fields(b) =~= fields(b));
    } else if a[0] == ' ' {
        a_space_separates_hosts(a.drop_first(), b);
        assert(text.drop_first() =~= a.drop_first() + seq![' '] + b);
    } else {
        let n = field_len(a) as int;
        let word = a.take(n);
        let rest = a.skip(n);
        lemma_field_ends(a);
        lemma_field_has_no_space(a);
        a_space_separates_hosts(rest, b);
        lemma_first_field(word, rest);
        lemma_first_field(word, rest + seq![' '] + b);
        assert(a =~= word + rest);
        assert(text =~= word + (rest + seq![' '] + b));
        assert(seq![word] + (fields(rest) + fields(b)) =~= fields(a) + fields(b));
    }
}

} // verus!
