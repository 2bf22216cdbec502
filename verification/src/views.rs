//! Small facts about element-wise views of vectors.
//!
//! The library's contracts compare `Vec`s through [`DeepView`], and the
//! solver does not bridge a `push` on the vector to a `push` on its deep view
//! on its own; this lemma does.

use vstd::prelude::*;

verus! {

/// Pushing an element onto a vector pushes its deep view onto the vector's
/// deep view.
pub proof fn lemma_deep_view_push<T: DeepView>(prev: Vec<T>, post: Vec<T>, x: T)
    requires
        post@ == prev@.push(x),
    ensures
        post.deep_view() == prev.deep_view().push(x.deep_view()),
{
    assert forall|j: int| 0 <= j < post.deep_view().len() implies post.deep_view()[j]
        == prev.deep_view().push(x.deep_view())[j] by {
        assert(post@[j] == prev@.push(x)[j]);
    }
    assert(post.deep_view() =~= prev.deep_view().push(x.deep_view()));
}

/// Removing an element from a vector removes the element's deep view from the
/// vector's deep view.
pub proof fn lemma_deep_view_remove<T: DeepView>(prev: Vec<T>, post: Vec<T>, i: int)
    requires
        0 <= i < prev@.len(),
        post@ == prev@.remove(i),
    ensures
        post.deep_view() == prev.deep_view().remove(i),
{
    assert forall|j: int| 0 <= j < post.deep_view().len() implies post.deep_view()[j]
        == prev.deep_view().remove(i)[j] by {
        assert(post@[j] == prev@.remove(i)[j]);
    }
    assert(post.deep_view() =~= prev.deep_view().remove(i));
}

/// Inserting an element into a vector inserts the element's deep view into
/// the vector's deep view.
pub proof fn lemma_deep_view_insert<T: DeepView>(prev: Vec<T>, post: Vec<T>, i: int, x: T)
    requires
        0 <= i <= prev@.len(),
        post@ == prev@.insert(i, x),
    ensures
        post.deep_view() == prev.deep_view().insert(i, x.deep_view()),
{
    assert forall|j: int| 0 <= j < post.deep_view().len() implies post.deep_view()[j]
        == prev.deep_view().insert(i, x.deep_view())[j] by {
        assert(post@[j] == prev@.insert(i, x)[j]);
    }
    assert(post.deep_view() =~= prev.deep_view().insert(i, x.deep_view()));
}

} // verus!
