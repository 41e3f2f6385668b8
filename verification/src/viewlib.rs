//! Ambient lemmas that connect a vector's deep view with its plain view, so
//! that loops building vectors can reason element by element.

use vstd::prelude::*;

verus! {

pub broadcast proof fn vec_deep_view_len<T: DeepView>(v: Vec<T>)
    ensures
        #[trigger] v.deep_view().len() == v@.len(),
{
}

pub broadcast proof fn vec_deep_view_index<T: DeepView>(v: Vec<T>, i: int)
    requires
        0 <= i < v@.len(),
    ensures
        #[trigger] v.deep_view()[i] == v@[i].deep_view(),
{
}

pub broadcast proof fn vec_deep_view_push<T: DeepView>(v1: Vec<T>, v2: Vec<T>, x: T)
    requires
        v2@ == v1@.push(x),
    ensures
        #![trigger v2.deep_view(), v1@.push(x)]
        v2.deep_view() == v1.deep_view().push(x.deep_view()),
{
    assert(v2.deep_view() =~= v1.deep_view().push(x.deep_view()));
}

pub broadcast group group_deep_view {
    vec_deep_view_len,
    vec_deep_view_index,
    vec_deep_view_push,
}

} // verus!
