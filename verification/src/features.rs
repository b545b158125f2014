//! The feature list as the build tool wants it: one token, names joined by commas.

use vstd::prelude::*;
use vstd::string::StringExecFns;

verus! {

/// The names in order, a comma between each two neighbours and nowhere else.
pub open spec fn joined(names: Seq<Seq<char>>) -> Seq<char>
    decreases names.len(),
{
    if names.len() == 0 {
        Seq::empty()
    } else if names.len() == 1 {
        names[0]
    } else {
        joined(names.drop_last()) + seq![','] + names.last()
    }
}

/// What the feature set adds to the command line: nothing when it is empty,
/// else the flag and the joined names.
pub open spec fn feature_args(names: Seq<Seq<char>>) -> Seq<Seq<char>> {
    if names.len() == 0 {
        Seq::empty()
    } else {
        seq!["--features"@, joined(names)]
    }
}

/// The length of all names together.
pub open spec fn total_len(names: Seq<Seq<char>>) -> nat
    decreases names.len(),
{
    if names.len() == 0 {
        0
    } else {
        total_len(names.drop_last()) + names.last().len()
    }
}

/// How many commas the text holds.
pub open spec fn commas(text: Seq<char>) -> nat
    decreases text.len(),
{
    if text.len() == 0 {
        0
    } else {
        commas(text.drop_last()) + if text.last() == ',' {
            1nat
        } else {
            0nat
        }
    }
}

/// One more name adds a comma and the name, and only the name where it is the first.
pub proof fn lemma_joined_push(names: Seq<Seq<char>>, name: Seq<char>)
    ensures
        joined(names.push(name)) == if names.len() == 0 {
            name
        } else {
            joined(names) + seq![','] + name
        },
{
    assert(names.push(name).drop_last() == names);
}

/// The joined text holds the names and one comma less than there are names:
/// no comma is added at either end.
pub proof fn lemma_joined_len(names: Seq<Seq<char>>)
    ensures
        names.len() == 0 ==> joined(names).len() == 0,
        names.len() > 0 ==> joined(names).len() == total_len(names) + names.len() - 1,
    decreases names.len(),
{
    if names.len() == 1 {
        assert(total_len(names.drop_last()) == 0);
    } else if names.len() > 1 {
        lemma_joined_len(names.drop_last());
    }
}

/// The joined text begins with the first name and ends with the last one:
/// no comma leads it and none trails it.
pub proof fn lemma_joined_ends(names: Seq<Seq<char>>)
    requires
        names.len() > 0,
    ensures
        names.first().is_prefix_of(joined(names)),
        names.last().is_suffix_of(joined(names)),
    decreases names.len(),
{
    if names.len() > 1 {
        lemma_joined_ends(names.drop_last());
    }
}

/// Counting commas goes part by part.
pub proof fn lemma_commas_concat(front: Seq<char>, back: Seq<char>)
    ensures
        commas(front + back) == commas(front) + commas(back),
    decreases back.len(),
{
    if back.len() == 0 {
        assert(front + back == front);
    } else {
        assert((front + back).drop_last() == front + back.drop_last());
        lemma_commas_concat(front, back.drop_last());
    }
}

/// Where no name holds a comma, the joined text holds exactly the separating
/// commas: one less than there are names.
pub proof fn lemma_joined_commas(names: Seq<Seq<char>>)
    requires
        forall|i: int| 0 <= i < names.len() ==> commas(#[trigger] names[i]) == 0,
    ensures
        names.len() == 0 ==> commas(joined(names)) == 0,
        names.len() > 0 ==> commas(joined(names)) == names.len() - 1,
    decreases names.len(),
{
    if names.len() > 1 {
        let front = names.drop_last();
        assert forall|i: int| 0 <= i < front.len() implies commas(#[trigger] front[i]) == 0 by {
            assert(front[i] == names[i]);
        }
        lemma_joined_commas(front);
        lemma_commas_concat(joined(front), seq![',']);
        lemma_commas_concat(joined(front) + seq![','], names.last());
        assert(commas(seq![',']) == 1) by {
            assert(seq![','].drop_last() == Seq::<char>::empty());
            assert(seq![','].last() == ',');
            assert(commas(Seq::<char>::empty()) == 0);
        }
    }
}

/// An empty feature set adds nothing to the command line; any other adds the
/// flag and one token that holds the joined names.
pub proof fn lemma_feature_args(names: Seq<Seq<char>>)
    ensures
        names.len() == 0 <==> feature_args(names).len() == 0,
        names.len() > 0 ==> feature_args(names).len() == 2 && feature_args(names)[0]
            == "--features"@ && feature_args(names)[1] == joined(names),
{
}

/// Joins the feature names by commas.
pub fn join_features(names: &Vec<String>) -> (list: String)
    ensures
        list@ == joined(names.deep_view()),
{
    let mut list = String::new();
    let mut i: usize = 0;
    while i < names.len()
        invariant
            i <= names.len(),
            list@ == joined(names.deep_view().take(i as int)),
        decreases names.len() - i,
    {
        let ghost before = names.deep_view().take(i as int);
        let ghost after = names.deep_view().take(i + 1);
        proof {
            reveal_strlit(",");
            assert(after.drop_last() == before);
            assert(after.last() == names[i as int]@);
        }
        if i > 0 {
            list.append(",");
        }
        list.append(names[i].as_str());
        i += 1;
    }
    proof {
        assert(names.deep_view().take(i as int) == names.deep_view());
    }
    list
}

} // verus!
