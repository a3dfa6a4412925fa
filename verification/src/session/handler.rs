use super::model::{
    hstore_entries, insert_all, is_xid_text, keys_distinct, lemma_insert_all_distinct, no_data,
    text_pairs, Session,
};
use vstd::prelude::*;

verus! {

/// The body of a request that creates a session: its data, each key once.
pub struct CreateForm {
    data: Vec<(String, String)>,
}

impl CreateForm {
    /// No key occurs twice in the form's data.
    #[verifier::type_invariant]
    spec fn keys_once(self) -> bool {
        keys_distinct(text_pairs(self.data@))
    }

    /// The form's data.
    pub closed spec fn pairs(self) -> Seq<(Seq<char>, Seq<char>)> {
        text_pairs(self.data@)
    }

    /// A form holding `data`, where no key occurs twice in it; `None` where one does.
    pub fn from_pairs(data: Vec<(String, String)>) -> (f: Option<CreateForm>)
        ensures
            f is Some <==> keys_distinct(text_pairs(data@)),
            f matches Some(form) ==> form.pairs() == text_pairs(data@),
    {
        let mut i: usize = 0;
        while i < data.len()
            invariant
                i <= data.len(),
                forall|a: int, b: int|
                    0 <= a < i && 0 <= b < data.len() && a != b ==> #[trigger] text_pairs(data@)[a].0
                        != #[trigger] text_pairs(data@)[b].0,
            decreases data.len() - i,
        {
            let mut j: usize = 0;
            while j < data.len()
                invariant
                    i < data.len(),
                    j <= data.len(),
                    forall|a: int, b: int|
                        0 <= a < i && 0 <= b < data.len() && a != b ==> #[trigger] text_pairs(
                            data@,
                        )[a].0 != #[trigger] text_pairs(data@)[b].0,
                    forall|b: int|
                        0 <= b < j && b != i ==> text_pairs(data@)[i as int].0 != #[trigger] text_pairs(
                            data@,
                        )[b].0,
                decreases data.len() - j,
            {
                if j != i && data[i].0 == data[j].0 {
                    assert(text_pairs(data@)[i as int].0 == text_pairs(data@)[j as int].0);
                    return None;
                }
                j = j + 1;
            }
            i = i + 1;
        }
        Some(CreateForm { data })
    }

    /// The form's data, each key once.
    pub fn into_pairs(self) -> (d: Vec<(String, String)>)
        ensures
            text_pairs(d@) == self.pairs(),
            keys_distinct(text_pairs(d@)),
    {
        proof {
            use_type_invariant(&self);
        }
        self.data
    }

    /// A new session holding the form's data: id 0, a fresh xid token, and
    /// exactly the form's keys, each with its value.
    pub fn into_session(self) -> (s: Session)
        ensures
            s.id == 0,
            is_xid_text(s.token@),
            hstore_entries(s.data) == insert_all(no_data(), self.pairs()),
            hstore_entries(s.data).dom().len() == self.pairs().len(),
            forall|j: int|
                0 <= j < self.pairs().len() ==> #[trigger] hstore_entries(s.data).contains_key(
                    self.pairs()[j].0,
                ) && hstore_entries(s.data)[self.pairs()[j].0] == Some(self.pairs()[j].1),
            forall|k: Seq<char>| #[trigger]
                hstore_entries(s.data).contains_key(k) ==> exists|j: int|
                    0 <= j < self.pairs().len() && self.pairs()[j].0 == k,
    {
        proof {
            use_type_invariant(&self);
            lemma_insert_all_distinct(self.pairs());
        }
        Session::with_data(self.data)
    }
}

} // verus!
