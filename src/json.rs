//! JSON values and the rule by which one is merged into another.

use vstd::prelude::*;

verus! {

broadcast use vstd::std_specs::vec::axiom_vec_index_decreases;

/// A JSON value.
///
/// Numbers are held as their literal text (`"404"`, `"-1.5e3"`), so that no
/// precision is lost on the way through. The members of an object keep their
/// order; where a key occurs twice, lookups go by its first occurrence.
#[derive(Debug, PartialEq)]
pub enum Json {
    Null,
    Bool(bool),
    Number(String),
    String(String),
    Array(Vec<Json>),
    Object(Vec<(String, Json)>),
}

/// The mathematical value of a [`Json`]: texts as character sequences,
/// arrays and objects as sequences.
pub enum JsonModel {
    Null,
    Bool(bool),
    Number(Seq<char>),
    Str(Seq<char>),
    Array(Seq<JsonModel>),
    Object(Seq<(Seq<char>, JsonModel)>),
}

/// The model of `j`.
pub open spec fn model_of(j: Json) -> JsonModel
    decreases j,
{
    match j {
        Json::Null => JsonModel::Null,
        Json::Bool(b) => JsonModel::Bool(b),
        Json::Number(t) => JsonModel::Number(t@),
        Json::String(s) => JsonModel::Str(s@),
        Json::Array(items) => JsonModel::Array(
            Seq::new(
                items.len() as nat,
                |i: int|
                    if 0 <= i < items.len() {
                        model_of(items[i])
                    } else {
                        JsonModel::Null
                    },
            ),
        ),
        Json::Object(members) => JsonModel::Object(
            Seq::new(
                members.len() as nat,
                |i: int|
                    if 0 <= i < members.len() {
                        (members[i].0@, model_of(members[i].1))
                    } else {
                        (Seq::empty(), JsonModel::Null)
                    },
            ),
        ),
    }
}

impl View for Json {
    type V = JsonModel;

    open spec fn view(&self) -> JsonModel {
        model_of(*self)
    }
}

/// The models of the members of an object, in order.
pub open spec fn members_model(members: Seq<(String, Json)>) -> Seq<(Seq<char>, JsonModel)> {
    Seq::new(members.len(), |i: int| (members[i].0@, members[i].1@))
}

/// The position of the first member of `m` whose key is `k`, or -1 where
/// no member has that key.
pub open spec fn key_index(m: Seq<(Seq<char>, JsonModel)>, k: Seq<char>) -> int
    decreases m.len(),
{
    if m.len() == 0 {
        -1
    } else if m[0].0 == k {
        0
    } else {
        let rest = key_index(m.drop_first(), k);
        if rest < 0 {
            -1
        } else {
            rest + 1
        }
    }
}

/// The members of `y`, in order, whose key no member of `x` has.
pub open spec fn new_members(
    x: Seq<(Seq<char>, JsonModel)>,
    y: Seq<(Seq<char>, JsonModel)>,
) -> Seq<(Seq<char>, JsonModel)>
    decreases y.len(),
{
    if y.len() == 0 {
        y
    } else {
        let earlier = new_members(x, y.drop_last());
        if key_index(x, y.last().0) < 0 {
            earlier.push(y.last())
        } else {
            earlier
        }
    }
}

/// The models of the items of an array, in order.
pub open spec fn items_model(items: Seq<Json>) -> Seq<JsonModel> {
    Seq::new(items.len(), |i: int| items[i]@)
}

/// `overlay` merged into `base`: two objects merge member by member (members
/// of `base` whose key the overlay also has are merged with the overlay's
/// value, and the overlay's other members follow in order), two arrays are
/// concatenated, and in every other case the overlay replaces the base.
pub open spec fn merged(base: JsonModel, overlay: JsonModel) -> JsonModel
    decreases overlay,
{
    match overlay {
        JsonModel::Object(y) => match base {
            JsonModel::Object(x) => JsonModel::Object(
                Seq::new(
                    x.len(),
                    |i: int|
                        {
                            let j = key_index(y, x[i].0);
                            if 0 <= j < y.len() {
                                (x[i].0, merged(x[i].1, y[j].1))
                            } else {
                                x[i]
                            }
                        },
                ) + new_members(x, y),
            ),
            _ => overlay,
        },
        JsonModel::Array(y) => match base {
            JsonModel::Array(x) => JsonModel::Array(x + y),
            _ => overlay,
        },
        _ => overlay,
    }
}

/// What `key_index` finds is the first member with that key.
pub proof fn lemma_key_index(m: Seq<(Seq<char>, JsonModel)>, k: Seq<char>)
    ensures
        -1 <= key_index(m, k) < m.len(),
        key_index(m, k) >= 0 ==> m[key_index(m, k)].0 == k,
        forall|t: int| 0 <= t < key_index(m, k) ==> m[t].0 != k,
        key_index(m, k) < 0 ==> forall|t: int| 0 <= t < m.len() ==> m[t].0 != k,
    decreases m.len(),
{
    if m.len() > 0 && m[0].0 != k {
        lemma_key_index(m.drop_first(), k);
        assert forall|t: int| 0 < t < m.len() implies m[t] == m.drop_first()[t - 1] by {}
    }
}

/// A position with key `k`, before which no member has key `k`, is what
/// `key_index` finds.
pub proof fn lemma_key_index_at(m: Seq<(Seq<char>, JsonModel)>, k: Seq<char>, i: int)
    requires
        0 <= i <= m.len(),
        forall|t: int| 0 <= t < i ==> m[t].0 != k,
        i < m.len() ==> m[i].0 == k,
    ensures
        key_index(m, k) == (if i < m.len() { i } else { -1 }),
    decreases i,
{
    if i > 0 {
        lemma_key_index_at(m.drop_first(), k, i - 1);
    }
}

impl Json {
    /// A copy of this value, member for member.
    pub fn copy(&self) -> (r: Json)
        ensures
            r@ == self@,
        decreases self,
    {
        match self {
            Json::Null => Json::Null,
            Json::Bool(b) => Json::Bool(*b),
            Json::Number(t) => Json::Number(t.clone()),
            Json::String(s) => Json::String(s.clone()),
            Json::Array(items) => {
                let mut out: Vec<Json> = Vec::new();
                let mut i: usize = 0;
                while i < items.len()
                    invariant
                        i <= items.len(),
                        *self == Json::Array(*items),
                        out@.len() == i,
                        forall|t: int| 0 <= t < i ==> out@[t]@ == items@[t]@,
                    decreases items.len() - i,
                {
                    proof {
                        assert(decreases_to!(*self => (*self)->Array_0));
                        assert(decreases_to!(*items => items[i as int]));
                    }
                    out.push(items[i].copy());
                    i += 1;
                }
                let r = Json::Array(out);
                assert(r@ == self@) by {
                    if let JsonModel::Array(a) = r@ {
                        if let JsonModel::Array(b) = self@ {
                            assert(a =~= b);
                        }
                    }
                }
                r
            },
            Json::Object(members) => {
                let mut out: Vec<(String, Json)> = Vec::new();
                let mut i: usize = 0;
                while i < members.len()
                    invariant
                        i <= members.len(),
                        *self == Json::Object(*members),
                        out@.len() == i,
                        forall|t: int|
                            0 <= t < i ==> out@[t].0@ == members@[t].0@ && out@[t].1@ == members@[t].1@,
                    decreases members.len() - i,
                {
                    proof {
                        assert(decreases_to!(*self => (*self)->Object_0));
                        assert(decreases_to!(*members => members[i as int]));
                        assert(decreases_to!(members[i as int] => members[i as int].1));
                    }
                    out.push((members[i].0.clone(), members[i].1.copy()));
                    i += 1;
                }
                let r = Json::Object(out);
                assert(r@ == self@) by {
                    if let JsonModel::Object(a) = r@ {
                        if let JsonModel::Object(b) = self@ {
                            assert(a =~= b);
                        }
                    }
                }
                r
            },
        }
    }
}

/// The model of an object is the sequence of its members' models.
pub proof fn lemma_object_model(m: Vec<(String, Json)>)
    ensures
        Json::Object(m)@ == JsonModel::Object(members_model(m@)),
{
    if let JsonModel::Object(a) = Json::Object(m)@ {
        assert(a =~= members_model(m@));
    }
}

/// The model of an array is the sequence of its items' models.
pub proof fn lemma_array_model(v: Vec<Json>)
    ensures
        Json::Array(v)@ == JsonModel::Array(items_model(v@)),
{
    if let JsonModel::Array(a) = Json::Array(v)@ {
        assert(a =~= items_model(v@));
    }
}

/// The position of the first member of `members` whose key is `k`.
fn find_key(members: &Vec<(String, Json)>, k: &String) -> (r: Option<usize>)
    ensures
        match r {
            Some(j) => j < members.len() && key_index(members_model(members@), k@) == j,
            None => key_index(members_model(members@), k@) == -1,
        },
{
    let mut i: usize = 0;
    while i < members.len()
        invariant
            i <= members.len(),
            forall|t: int| 0 <= t < i ==> members@[t].0@ != k@,
        decreases members.len() - i,
    {
        if members[i].0 == *k {
            proof {
                lemma_key_index_at(members_model(members@), k@, i as int);
            }
            return Some(i);
        }
        i += 1;
    }
    proof {
        lemma_key_index_at(members_model(members@), k@, members.len() as int);
    }
    None
}

/// `overlay` merged into `base`, as [`merged`] states it. Neither argument
/// changes; the result is a new value.
pub fn merge(base: &Json, overlay: &Json) -> (r: Json)
    ensures
        r@ == merged(base@, overlay@),
    decreases overlay,
{
    match overlay {
        Json::Object(y) => match base {
            Json::Object(x) => {
                let ghost xm = members_model(x@);
                let ghost ym = members_model(y@);
                let mut out: Vec<(String, Json)> = Vec::new();
                let mut i: usize = 0;
                while i < x.len()
                    invariant
                        i <= x.len(),
                        *overlay == Json::Object(*y),
                        xm == members_model(x@),
                        ym == members_model(y@),
                        out@.len() == i,
                        forall|t: int|
                            0 <= t < i ==> #[trigger] members_model(out@)[t] == {
                                let j = key_index(ym, xm[t].0);
                                if 0 <= j < ym.len() {
                                    (xm[t].0, merged(xm[t].1, ym[j].1))
                                } else {
                                    xm[t]
                                }
                            },
                    decreases x.len() - i,
                {
                    let ghost before = out@;
                    match find_key(y, &x[i].0) {
                        Some(j) => {
                            proof {
                                assert(decreases_to!(*overlay => (*overlay)->Object_0));
                                assert(decreases_to!(*y => y[j as int]));
                                assert(decreases_to!(y[j as int] => y[j as int].1));
                            }
                            let v = merge(&x[i].1, &y[j].1);
                            out.push((x[i].0.clone(), v));
                            assert(xm[i as int].0 == x@[i as int].0@);
                            assert(key_index(ym, xm[i as int].0) == j as int);
                            assert(members_model(out@)[i as int] == (
                                xm[i as int].0,
                                merged(xm[i as int].1, ym[j as int].1),
                            ));
                        },
                        None => {
                            out.push((x[i].0.clone(), x[i].1.copy()));
                            assert(members_model(out@)[i as int] == xm[i as int]);
                            assert(key_index(ym, xm[i as int].0) == -1);
                        },
                    }
                    proof {
                        assert forall|t: int| 0 <= t < i implies members_model(out@)[t]
                            == members_model(before)[t] by {
                            assert(out@[t] == before[t]);
                        }
                        assert forall|t: int| 0 <= t < i + 1 implies #[trigger] members_model(out@)[t] == {
                                let j = key_index(ym, xm[t].0);
                                if 0 <= j < ym.len() {
                                    (xm[t].0, merged(xm[t].1, ym[j].1))
                                } else {
                                    xm[t]
                                }
                            } by {
                            if t < i {
                                assert(members_model(out@)[t] == members_model(before)[t]);
                            }
                        }
                    }
                    i += 1;
                }
                let ghost first = members_model(out@);
                let mut j: usize = 0;
                while j < y.len()
                    invariant
                        j <= y.len(),
                        xm == members_model(x@),
                        ym == members_model(y@),
                        members_model(out@) == first + new_members(xm, ym.take(j as int)),
                    decreases y.len() - j,
                {
                    let ghost before = out@;
                    let found = find_key(x, &y[j].0);
                    if found.is_none() {
                        out.push((y[j].0.clone(), y[j].1.copy()));
                        assert(members_model(out@) =~= members_model(before).push(ym[j as int]));
                    }
                    assert(ym.take(j + 1).drop_last() =~= ym.take(j as int));
                    j += 1;
                }
                assert(ym.take(y.len() as int) =~= ym);
                let r = Json::Object(out);
                proof {
                    lemma_object_model(out);
                    lemma_object_model(*x);
                    lemma_object_model(*y);
                    if let JsonModel::Object(a) = merged(base@, overlay@) {
                        assert(first =~= a.take(xm.len() as int));
                        assert(a =~= first + new_members(xm, ym));
                    }
                }
                r
            },
            _ => overlay.copy(),
        },
        Json::Array(y) => match base {
            Json::Array(x) => {
                let mut out: Vec<Json> = Vec::new();
                let mut i: usize = 0;
                while i < x.len()
                    invariant
                        i <= x.len(),
                        out@.len() == i,
                        items_model(out@) == items_model(x@).take(i as int),
                    decreases x.len() - i,
                {
                    let ghost before = out@;
                    out.push(x[i].copy());
                    assert forall|t: int| 0 <= t < i implies items_model(out@)[t] == items_model(
                        before,
                    )[t] by {
                        assert(out@[t] == before[t]);
                    }
                    assert(items_model(out@) =~= items_model(x@).take(i + 1));
                    i += 1;
                }
                let mut j: usize = 0;
                while j < y.len()
                    invariant
                        j <= y.len(),
                        out@.len() == x.len() + j,
                        items_model(out@) == items_model(x@) + items_model(y@).take(j as int),
                    decreases y.len() - j,
                {
                    let ghost before = out@;
                    out.push(y[j].copy());
                    assert forall|t: int| 0 <= t < x.len() + j + 1 implies items_model(out@)[t]
                        == (items_model(x@) + items_model(y@).take(j + 1))[t] by {
                        if t < x.len() + j {
                            assert(out@[t] == before[t]);
                            assert(items_model(out@)[t] == items_model(before)[t]);
                            assert(items_model(before)[t] == (items_model(x@) + items_model(
                                y@,
                            ).take(j as int))[t]);
                        }
                    }
                    assert(items_model(out@) =~= items_model(x@) + items_model(y@).take(j + 1));
                    j += 1;
                }
                proof {
                    lemma_array_model(out);
                    lemma_array_model(*x);
                    lemma_array_model(*y);
                    assert(items_model(x@).take(x.len() as int) =~= items_model(x@));
                    assert(items_model(y@).take(y.len() as int) =~= items_model(y@));
                }
                Json::Array(out)
            },
            _ => overlay.copy(),
        },
        _ => overlay.copy(),
    }
}

/// Where no member of `y` has a key that `x` has, all of `y` is new.
proof fn lemma_new_members_disjoint(x: Seq<(Seq<char>, JsonModel)>, y: Seq<(Seq<char>, JsonModel)>)
    requires
        forall|i: int, j: int| 0 <= i < x.len() && 0 <= j < y.len() ==> x[i].0 != y[j].0,
    ensures
        new_members(x, y) == y,
    decreases y.len(),
{
    if y.len() > 0 {
        lemma_new_members_disjoint(x, y.drop_last());
        lemma_key_index(x, y.last().0);
        assert(y.drop_last().push(y.last()) =~= y);
    }
}

/// Merging an object into an object with none of its keys gives the members
/// of both: those of the base first, each with its value, then those of the
/// overlay, each with its value.
pub proof fn lemma_merge_disjoint(x: Seq<(Seq<char>, JsonModel)>, y: Seq<(Seq<char>, JsonModel)>)
    requires
        forall|i: int, j: int| 0 <= i < x.len() && 0 <= j < y.len() ==> x[i].0 != y[j].0,
    ensures
        merged(JsonModel::Object(x), JsonModel::Object(y)) == JsonModel::Object(x + y),
{
    lemma_new_members_disjoint(x, y);
    if let JsonModel::Object(a) = merged(JsonModel::Object(x), JsonModel::Object(y)) {
        assert forall|i: int| 0 <= i < x.len() implies a[i] == x[i] by {
            lemma_key_index(y, x[i].0);
        }
        assert(a =~= x + y);
    }
}

} // verus!
