//! API keys from the environment and from `.env` files.

use vstd::prelude::*;

use crate::text::{
    blank, chars_of, find_from, index_from, is_blank, law_found_place_is_the_first,
    law_trimming_finds_the_core, lemma_index_from, pieces, split, string_of, texts, trim, trim_of,
    trimmed, trimmed_of, CharClass,
};

verus! {

/// Name of the OpenAI key.
pub const OPENAI_API_KEY: &'static str = "OPENAI_API_KEY";

/// Name of the Anthropic key.
pub const ANTHROPIC_API_KEY: &'static str = "ANTHROPIC_API_KEY";

/// A key that cannot be used.
#[derive(Debug, Clone, Copy)]
pub enum KeyError {
    /// The variable is not set.
    Missing(&'static str),
    /// The variable is blank.
    Empty(&'static str),
}

/// The value of the variable `key`, `value` being what the environment holds of it.
pub fn require(key: &'static str, value: Option<String>) -> (found: Result<String, KeyError>)
    ensures
        match value {
            None => found == Err::<String, KeyError>(KeyError::Missing(key)),
            Some(v) => if is_blank(v@) {
                found == Err::<String, KeyError>(KeyError::Empty(key))
            } else {
                found == Ok::<String, KeyError>(v)
            },
        },
{
    match value {
        None => Err(KeyError::Missing(key)),
        Some(v) => if blank(v.as_str()) {
            Err(KeyError::Empty(key))
        } else {
            Ok(v)
        },
    }
}

// ── `.env` files ──────────────────────────────────────────────────────────────

/// The value that stands behind the `=`: without white space and quotes around it.
pub open spec fn unquoted(value: Seq<char>) -> Seq<char> {
    trimmed_of(trimmed_of(trimmed(value), CharClass::Just('"')), CharClass::Just('\''))
}

/// The name and value that a line assigns, if it assigns any: blank lines, comments and
/// lines without `=` do not.
pub open spec fn assignment(line: Seq<char>) -> Option<(Seq<char>, Seq<char>)> {
    let body = trimmed(line);
    if body.len() == 0 || body.first() == '#' {
        None
    } else {
        match index_from(body, seq!['='], 0) {
            None => None,
            Some(i) => Some((trimmed(body.take(i)), unquoted(body.skip(i + 1)))),
        }
    }
}

/// The names and values of a list of pairs.
pub open spec fn pairs(list: Seq<(String, String)>) -> Seq<(Seq<char>, Seq<char>)> {
    list.map_values(|p: (String, String)| (p.0@, p.1@))
}

/// Whether `name` is among the assigned names.
pub open spec fn assigns(list: Seq<(Seq<char>, Seq<char>)>, name: Seq<char>) -> bool {
    exists|i: int| 0 <= i < list.len() && (#[trigger] list[i]).0 == name
}

/// What the lines add to an environment in which the names of `set` are set: the first
/// assignment of each name that is not set there.
pub open spec fn additions(lines: Seq<Seq<char>>, set: Seq<Seq<char>>) -> Seq<
    (Seq<char>, Seq<char>),
>
    decreases lines.len(),
{
    if lines.len() == 0 {
        Seq::empty()
    } else {
        let before = additions(lines.drop_last(), set);
        match assignment(lines.last()) {
            None => before,
            Some((name, value)) => if set.contains(name) || assigns(before, name) {
                before
            } else {
                before.push((name, value))
            },
        }
    }
}

fn parse_line(line: &str) -> (found: Option<(String, String)>)
    ensures
        match found {
            None => assignment(line@) is None,
            Some((name, value)) => assignment(line@) == Some((name@, value@)),
        },
{
    let body = trim(line);
    let chars = chars_of(body);
    let n: usize = chars.len();
    if n == 0 || chars[0] == '#' {
        return None;
    }
    let mut sign: Vec<char> = Vec::new();
    sign.push('=');
    assert(sign@ =~= seq!['=']);
    proof {
        lemma_index_from(body@, seq!['='], 0);
    }
    match find_from(&chars, &sign, 0) {
        None => None,
        Some(i) => {
            let left = string_of(&chars, 0, i);
            let right = string_of(&chars, i + 1, n);
            assert(left@ =~= body@.take(i as int));
            assert(right@ =~= body@.skip(i + 1));
            let name = trim(left.as_str()).to_owned();
            let bare = trim_of(trim(right.as_str()), CharClass::Just('"'));
            let value = trim_of(bare, CharClass::Just('\'')).to_owned();
            Some((name, value))
        },
    }
}

fn holds(list: &Vec<String>, name: &String) -> (yes: bool)
    ensures
        yes == texts(list@).contains(name@),
{
    let mut i: usize = 0;
    while i < list.len()
        invariant
            i <= list@.len(),
            forall|j: int| 0 <= j < i ==> (#[trigger] list@[j])@ != name@,
        decreases list@.len() - i,
    {
        if list[i] == *name {
            assert(texts(list@)[i as int] == name@);
            return true;
        }
        i = i + 1;
    }
    assert(!texts(list@).contains(name@)) by {
        if texts(list@).contains(name@) {
            let j = choose|j: int| 0 <= j < texts(list@).len() && texts(list@)[j] == name@;
            assert(list@[j]@ == name@);
        }
    }
    false
}

fn assigned(list: &Vec<(String, String)>, name: &String) -> (yes: bool)
    ensures
        yes == assigns(pairs(list@), name@),
{
    let mut i: usize = 0;
    while i < list.len()
        invariant
            i <= list@.len(),
            forall|j: int| 0 <= j < i ==> (#[trigger] pairs(list@)[j]).0 != name@,
        decreases list@.len() - i,
    {
        if list[i].0 == *name {
            assert(pairs(list@)[i as int].0 == name@);
            return true;
        }
        i = i + 1;
    }
    false
}

/// What a `.env` file adds to an environment in which the names of `set` are set, in the
/// order of its lines. What is set already stays as it is.
pub fn load_dotenv(text: &str, set: &Vec<String>) -> (added: Vec<(String, String)>)
    ensures
        pairs(added@) == additions(pieces(text@, seq!['\n']), texts(set@)),
{
    proof {
        reveal_strlit("\n");
        assert("\n"@ =~= seq!['\n']);
    }
    let lines = split(text, "\n");
    let ghost all = texts(lines@);
    let mut added: Vec<(String, String)> = Vec::new();
    let mut i: usize = 0;
    assert(all.take(0) =~= Seq::empty());
    while i < lines.len()
        invariant
            i <= lines@.len(),
            all == texts(lines@),
            pairs(added@) =~= additions(all.take(i as int), texts(set@)),
        decreases lines@.len() - i,
    {
        let ghost before = added@;
        assert(all.take(i + 1).drop_last() =~= all.take(i as int));
        assert(all.take(i + 1).last() == lines@[i as int]@);
        match parse_line(lines[i].as_str()) {
            None => {},
            Some((name, value)) => {
                if !holds(set, &name) && !assigned(&added, &name) {
                    let ghost pair = (name@, value@);
                    added.push((name, value));
                    assert(pairs(added@) =~= pairs(before).push(pair));
                }
            },
        }
        i = i + 1;
    }
    assert(all.take(i as int) =~= all);
    added
}

// ── Laws ──────────────────────────────────────────────────────────────────────

/// The environment wins over the file: nothing that is set already is assigned, and
/// nothing is assigned twice.
pub proof fn law_environment_wins(lines: Seq<Seq<char>>, set: Seq<Seq<char>>)
    ensures
        forall|i: int|
            0 <= i < additions(lines, set).len() ==> !set.contains(
                (#[trigger] additions(lines, set)[i]).0,
            ),
        forall|i: int, j: int|
            0 <= i < j < additions(lines, set).len() ==> (#[trigger] additions(lines, set)[i]).0
                != (#[trigger] additions(lines, set)[j]).0,
    decreases lines.len(),
{
    if lines.len() > 0 {
        let before = additions(lines.drop_last(), set);
        law_environment_wins(lines.drop_last(), set);
        let all = additions(lines, set);
        assert forall|i: int| 0 <= i < all.len() implies !set.contains((#[trigger] all[i]).0) by {
            if i < before.len() {
                assert(all[i] == before[i]);
            }
        }
        assert forall|i: int, j: int| 0 <= i < j < all.len() implies (#[trigger] all[i]).0 != (
        #[trigger] all[j]).0 by {
            assert(all[i] == before[i]);
            if j < before.len() {
                assert(all[j] == before[j]);
            }
        }
    }
}

/// A name that some line assigns and that is not set is assigned.
pub proof fn law_unset_names_are_assigned(lines: Seq<Seq<char>>, set: Seq<Seq<char>>, k: int)
    requires
        0 <= k < lines.len(),
        assignment(lines[k]) is Some,
        !set.contains((assignment(lines[k])->0).0),
    ensures
        assigns(additions(lines, set), (assignment(lines[k])->0).0),
    decreases lines.len(),
{
    let most = lines.drop_last();
    let name = (assignment(lines[k])->0).0;
    if k < most.len() {
        assert(most[k] == lines[k]);
        law_unset_names_are_assigned(most, set, k);
        let i = choose|i: int|
            0 <= i < additions(most, set).len() && (#[trigger] additions(most, set)[i]).0 == name;
        assert(additions(lines, set)[i] == additions(most, set)[i]);
    } else if !assigns(additions(most, set), name) {
        let all = additions(lines, set);
        assert(all[all.len() - 1].0 == name);
    }
}

/// The additions of the first lines come first, and more lines change none of them.
pub proof fn law_additions_only_grow(lines: Seq<Seq<char>>, line: Seq<char>, set: Seq<Seq<char>>)
    ensures
        additions(lines, set).is_prefix_of(additions(lines.push(line), set)),
        additions(lines.push(line), set).len() <= additions(lines, set).len() + 1,
{
    assert(lines.push(line).drop_last() =~= lines);
}

/// What is added is what the first line that assigns the name says, and it stands as far
/// back as that line does.
pub proof fn law_first_assignment_counts(lines: Seq<Seq<char>>, set: Seq<Seq<char>>, i: int)
    requires
        0 <= i < additions(lines, set).len(),
    ensures
        exists|k: int|
            {
                &&& 0 <= k < lines.len()
                &&& assignment(#[trigger] lines[k]) == Some(additions(lines, set)[i])
                &&& forall|j: int|
                    0 <= j < k ==> !(assignment(#[trigger] lines[j]) matches Some(earlier)
                        && earlier.0 == additions(lines, set)[i].0)
                &&& additions(lines.take(k), set).len() == i
            },
    decreases lines.len(),
{
    let most = lines.drop_last();
    let before = additions(most, set);
    if i < before.len() {
        law_first_assignment_counts(most, set, i);
        let k = choose|k: int|
            {
                &&& 0 <= k < most.len()
                &&& assignment(#[trigger] most[k]) == Some(before[i])
                &&& forall|j: int|
                    0 <= j < k ==> !(assignment(#[trigger] most[j]) matches Some(earlier)
                        && earlier.0 == before[i].0)
                &&& additions(most.take(k), set).len() == i
            };
        assert(lines[k] == most[k]);
        assert(most.take(k) =~= lines.take(k));
        assert forall|j: int| 0 <= j < k implies !(assignment(#[trigger] lines[j]) matches Some(
            earlier,
        ) && earlier.0 == before[i].0) by {
            assert(most[j] == lines[j]);
        }
    } else {
        let k = lines.len() - 1;
        let name = additions(lines, set)[i].0;
        assert(lines.take(k) =~= most);
        law_environment_wins(lines, set);
        assert forall|j: int| 0 <= j < k implies !(assignment(#[trigger] lines[j]) matches Some(
            earlier,
        ) && earlier.0 == name) by {
            assert(most[j] == lines[j]);
            if assignment(lines[j]) is Some && (assignment(lines[j])->0).0 == name {
                law_unset_names_are_assigned(most, set, j);
            }
        }
        assert(assignment(lines[k]) == Some(additions(lines, set)[i]));
    }
}

/// A line assigns something exactly if it holds a `=` and is no comment. The name is what
/// stands before the first `=`, and the value what stands behind it.
pub proof fn law_lines_assign_at_the_first_sign(line: Seq<char>)
    ensures
        assignment(line) is None <==> !trimmed(line).contains('=') || trimmed(line)[0] == '#',
        forall|i: int|
            {
                &&& 0 <= i < trimmed(line).len()
                &&& trimmed(line)[0] != '#'
                &&& #[trigger] trimmed(line)[i] == '='
                &&& !trimmed(line).take(i).contains('=')
            } ==> assignment(line) == Some(
                (trimmed(trimmed(line).take(i)), unquoted(trimmed(line).skip(i + 1))),
            ),
{
    let body = trimmed(line);
    let sign = seq!['='];
    law_found_place_is_the_first(body, sign, 0);
    match index_from(body, sign, 0) {
        None => {
            assert forall|i: int| 0 <= i < body.len() implies body[i] != '=' by {
                assert(body.subrange(i, i + 1) != sign);
                if body[i] == '=' {
                    assert(body.subrange(i, i + 1) =~= sign);
                }
            }
        },
        Some(k) => {
            assert(body.subrange(k, k + 1)[0] == '=');
            assert(body[k] == '=');
            assert(body.contains('='));
            assert forall|i: int|
                {
                    &&& 0 <= i < body.len()
                    &&& body[0] != '#'
                    &&& #[trigger] body[i] == '='
                    &&& !body.take(i).contains('=')
                } implies i == k by {
                if i < k {
                    assert(body.subrange(i, i + 1) =~= sign);
                } else if k < i {
                    assert(body.take(i)[k] == '=');
                }
            }
        },
    }
}

/// White space, then double quotes, then single quotes are taken off a value; what remains of
/// it is untouched.
pub proof fn law_quotes_come_off(core: Seq<char>, left: Seq<char>, right: Seq<char>)
    requires
        core.len() > 0,
        core[0] != '"' && core[0] != '\'' && !CharClass::White.has(core[0]),
        core.last() != '"' && core.last() != '\'' && !CharClass::White.has(core.last()),
        is_blank(left),
        is_blank(right),
    ensures
        unquoted(left + core + right) == core,
        unquoted(left + (seq!['"'] + core + seq!['"']) + right) == core,
        unquoted(left + (seq!['\''] + core + seq!['\'']) + right) == core,
{
    let none = Seq::<char>::empty();
    let double = seq!['"'] + core + seq!['"'];
    let single = seq!['\''] + core + seq!['\''];
    let white = CharClass::White;
    assert(none + core + none =~= core);
    assert(none + single + none =~= single);
    assert forall|i: int| 0 <= i < left.len() implies white.has(#[trigger] left[i]) by {}
    assert forall|i: int| 0 <= i < right.len() implies white.has(#[trigger] right[i]) by {}
    assert(!white.has('"') && !white.has('\''));
    law_trimming_finds_the_core(left, core, right, white);
    law_trimming_finds_the_core(left, double, right, white);
    law_trimming_finds_the_core(left, single, right, white);
    law_trimming_finds_the_core(none, core, none, CharClass::Just('"'));
    law_trimming_finds_the_core(none, core, none, CharClass::Just('\''));
    law_trimming_finds_the_core(seq!['"'], core, seq!['"'], CharClass::Just('"'));
    law_trimming_finds_the_core(none, single, none, CharClass::Just('"'));
    law_trimming_finds_the_core(seq!['\''], core, seq!['\''], CharClass::Just('\''));
}

/// There are as many names and values as pairs, each at its pair's place, and a name is
/// assigned exactly if it is that of one of them.
pub proof fn law_pairs_keep_their_places(list: Seq<(String, String)>, name: Seq<char>)
    ensures
        pairs(list).len() == list.len(),
        forall|i: int|
            0 <= i < list.len() ==> #[trigger] pairs(list)[i] == (list[i].0@, list[i].1@),
        assigns(pairs(list), name) <==> exists|i: int|
            0 <= i < list.len() && (#[trigger] list[i]).0@ == name,
{
    if assigns(pairs(list), name) {
        let i = choose|i: int| 0 <= i < list.len() && (#[trigger] pairs(list)[i]).0 == name;
        assert(list[i].0@ == name);
    }
    if exists|i: int| 0 <= i < list.len() && (#[trigger] list[i]).0@ == name {
        let i = choose|i: int| 0 <= i < list.len() && (#[trigger] list[i]).0@ == name;
        assert(pairs(list)[i].0 == name);
    }
}

} // verus!
