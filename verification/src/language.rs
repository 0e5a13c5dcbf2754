//! Languages, by their codes.

use vstd::prelude::*;

use crate::error::Error;
use crate::text::all_space;
use crate::text::is_space;
use crate::text::is_without_space_around;
use crate::text::law_trimming;
use crate::text::split;
use crate::text::split_text;
use crate::text::texts;
use crate::text::trim;
use crate::text::trimmed;

verus! {

/// One or more language codes.
pub struct Languages {
    codes: Vec<String>,
}

impl View for Languages {
    type V = Seq<Seq<char>>;

    closed spec fn view(&self) -> Seq<Seq<char>> {
        texts(self.codes@)
    }
}

/// The parts without the white space around them, but for those that are empty then.
pub open spec fn filled(parts: Seq<Seq<char>>) -> Seq<Seq<char>>
    decreases parts.len(),
{
    if parts.len() == 0 {
        Seq::empty()
    } else {
        let before = filled(parts.drop_last());
        let part = trimmed(parts.last());
        if part.len() == 0 {
            before
        } else {
            before.push(part)
        }
    }
}

/// The codes in a list that is separated by commas.
pub open spec fn listed_codes(csv: Seq<char>) -> Seq<Seq<char>> {
    filled(split_text(csv, ','))
}

impl Languages {
    #[verifier::type_invariant]
    spec fn wf(self) -> bool {
        self.codes@.len() > 0
    }

    /// The languages in a list that is separated by commas, if there is any.
    pub fn from_csv(csv: &str) -> (r: Option<Languages>)
        ensures
            r is Some <==> listed_codes(csv@).len() > 0,
            r matches Some(languages) ==> languages@ == listed_codes(csv@),
    {
        let parts = split(csv, ',');
        let ghost all = texts(parts@);
        let mut codes: Vec<String> = Vec::new();
        let mut i: usize = 0;
        assert(texts(codes@) =~= filled(all.take(0)));
        while i < parts.len()
            invariant
                i <= parts@.len(),
                all == texts(parts@),
                texts(codes@) == filled(all.take(i as int)),
            decreases parts@.len() - i,
        {
            proof {
                assert(all.take(i + 1).drop_last() =~= all.take(i as int));
                assert(all.take(i + 1).last() == parts@[i as int]@);
            }
            let code = trim(parts[i].as_str());
            if !code.as_str().is_empty() {
                let ghost before = texts(codes@);
                codes.push(code);
                assert(texts(codes@) =~= before.push(code@));
            }
            i += 1;
        }
        assert(all.take(i as int) =~= all);
        assert(codes@.len() == texts(codes@).len());
        if codes.len() == 0 {
            None
        } else {
            Some(Languages { codes })
        }
    }

    /// The languages in a list that is separated by commas, or an error that asks for one.
    pub fn required_from_csv(csv: &str) -> (r: Result<Languages, Error>)
        ensures
            r is Ok <==> listed_codes(csv@).len() > 0,
            r matches Ok(languages) ==> languages@ == listed_codes(csv@),
            r matches Err(e) ==> e@ == seq!["language must contain at least one locale code"@],
    {
        match Languages::from_csv(csv) {
            Some(languages) => Ok(languages),
            None => Err(Error::new("language must contain at least one locale code")),
        }
    }

    /// How many languages there are.
    pub fn len(&self) -> (r: usize)
        ensures
            r == self@.len(),
            r > 0,
    {
        proof {
            use_type_invariant(self);
        }
        self.codes.len()
    }

    /// The first language.
    pub fn first(&self) -> (r: &str)
        ensures
            self@.len() > 0,
            r@ == self@[0],
    {
        proof {
            use_type_invariant(self);
        }
        self.codes[0].as_str()
    }

    /// The codes, in order.
    pub fn to_vec(&self) -> (r: Vec<String>)
        ensures
            texts(r@) == self@,
    {
        let mut r: Vec<String> = Vec::new();
        let mut i: usize = 0;
        while i < self.codes.len()
            invariant
                i <= self.codes@.len(),
                r@ =~= self.codes@.take(i as int),
            decreases self.codes@.len() - i,
        {
            r.push(self.codes[i].clone());
            i += 1;
        }
        assert(r@ =~= self.codes@);
        r
    }
}

proof fn lemma_split_last(csv: Seq<char>, code: Seq<char>)
    requires
        !code.contains(','),
    ensures
        split_text(csv.push(',') + code, ',') == split_text(csv, ',').push(code),
    decreases code.len(),
{
    let whole = csv.push(',') + code;
    if code.len() == 0 {
        assert(whole =~= csv.push(','));
        assert(whole.drop_last() =~= csv);
        assert(code =~= Seq::empty());
    } else {
        let rest = code.drop_last();
        assert forall|c: char| rest.contains(c) implies code.contains(c) by {
            let i = choose|i: int| 0 <= i < rest.len() && rest[i] == c;
            assert(code[i] == c);
        }
        assert(code[code.len() - 1] == code.last());
        lemma_split_last(csv, rest);
        assert(whole.drop_last() =~= csv.push(',') + rest);
        let before = split_text(csv, ',').push(rest);
        assert(before.drop_last() =~= split_text(csv, ','));
        assert(before.last() == rest);
        assert(rest.push(code.last()) =~= code);
    }
}

/// The codes of a list are what stands between its commas, in order, without the white space around
/// it. What is white space only is no code.
pub proof fn law_listed_codes(csv: Seq<char>, code: Seq<char>)
    requires
        !code.contains(','),
    ensures
        all_space(code) ==> listed_codes(code).len() == 0 && listed_codes(csv.push(',') + code)
            == listed_codes(csv),
        !all_space(code) ==> {
            &&& listed_codes(code).len() == 1
            &&& is_without_space_around(listed_codes(code)[0], code)
            &&& listed_codes(csv.push(',') + code) == listed_codes(csv).push(listed_codes(code)[0])
        },
        code.len() > 0 && !is_space(code[0]) && !is_space(code[code.len() - 1]) ==> listed_codes(
            code,
        ) == seq![code],
{
    law_trimming(code);
    lemma_split_last(csv, code);
    lemma_alone(code);
    assert(split_text(csv, ',').push(code).drop_last() =~= split_text(csv, ','));
    assert(seq![code].drop_last() =~= Seq::<Seq<char>>::empty());
    assert(filled(Seq::<Seq<char>>::empty()) == Seq::<Seq<char>>::empty());
    assert(listed_codes(code) =~= if trimmed(code).len() == 0 {
        Seq::empty()
    } else {
        seq![trimmed(code)]
    });
}

proof fn lemma_alone(code: Seq<char>)
    requires
        !code.contains(','),
    ensures
        split_text(code, ',') == seq![code],
    decreases code.len(),
{
    if code.len() > 0 {
        let rest = code.drop_last();
        assert forall|c: char| rest.contains(c) implies code.contains(c) by {
            let i = choose|i: int| 0 <= i < rest.len() && rest[i] == c;
            assert(code[i] == c);
        }
        assert(code[code.len() - 1] == code.last());
        lemma_alone(rest);
        assert(seq![rest].drop_last() =~= Seq::<Seq<char>>::empty());
        assert(rest.push(code.last()) =~= code);
        assert(split_text(code, ',') =~= seq![code]);
    } else {
        assert(code =~= Seq::empty());
    }
}

} // verus!
