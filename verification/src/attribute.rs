//! An attribute is a named column of vertex data: a name as it appears in
//! the vertex shader's source, and the qualifiers that make up its values.

use vstd::prelude::*;

use crate::qualifier::{Qualifier, Scalar};

verus! {

/// The mathematical content of an [`Attribute`]: its name and its data.
pub ghost struct AttributeModel {
    pub name: Seq<char>,
    pub data: Seq<Qualifier>,
}

/// A named column of vertex data.
#[derive(Debug, PartialEq)]
pub struct Attribute {
    name: String,
    data: Vec<Qualifier>,
}

impl View for Attribute {
    type V = AttributeModel;

    closed spec fn view(&self) -> AttributeModel {
        AttributeModel { name: self.name@, data: self.data@ }
    }
}

/// The concatenation of the components of each qualifier, in order: the
/// exact sequence of scalars that a buffer upload carries.
pub open spec fn flat_components(qs: Seq<Qualifier>) -> Seq<Scalar>
    decreases qs.len(),
{
    if qs.len() == 0 {
        Seq::empty()
    } else {
        qs.first().components() + flat_components(qs.drop_first())
    }
}

/// Appending one qualifier to a sequence appends its components to the
/// flattening of the sequence.
pub proof fn lemma_flat_components_push(qs: Seq<Qualifier>, q: Qualifier)
    ensures
        flat_components(qs.push(q)) == flat_components(qs) + q.components(),
    decreases qs.len(),
{
    if qs.len() == 0 {
        assert(qs.push(q).first() == q);
        assert(qs.push(q).drop_first() =~= Seq::<Qualifier>::empty());
        assert(flat_components(qs.push(q)) == q.components() + flat_components(
            Seq::<Qualifier>::empty(),
        ));
        assert(q.components() + flat_components(Seq::<Qualifier>::empty()) =~= q.components());
        assert(flat_components(qs) + q.components() =~= q.components());
    } else {
        assert(qs.push(q).drop_first() =~= qs.drop_first().push(q));
        lemma_flat_components_push(qs.drop_first(), q);
        assert(flat_components(qs.push(q)) =~= flat_components(qs) + q.components());
    }
}

impl Attribute {
    /// Builds an attribute from a name and its qualifier data.
    pub fn new(name: String, data: Vec<Qualifier>) -> (r: Self)
        ensures
            r@.name == name@,
            r@.data == data@,
    {
        Attribute { name, data }
    }

    /// The name under which the vertex shader declares this attribute.
    pub fn get_name(&self) -> (r: &String)
        ensures
            r@ == self@.name,
    {
        &self.name
    }

    /// The qualifiers that make up this attribute's data.
    pub fn get_qualifiers(&self) -> (r: &Vec<Qualifier>)
        ensures
            r@ == self@.data,
    {
        &self.data
    }

    /// Flattens the qualifier data into the scalar sequence that is uploaded
    /// to the renderer's buffer.
    pub fn flatten(&self) -> (r: Vec<Scalar>)
        ensures
            r@ == flat_components(self@.data),
    {
        let mut r: Vec<Scalar> = Vec::new();
        let n = self.data.len();
        let mut i: usize = 0;
        while i < n
            invariant
                i <= n,
                n == self.data.len(),
                r@ == flat_components(self@.data.take(i as int)),
            decreases n - i,
        {
            let layer = self.data[i].to_vec();
            r.extend_from_slice(layer.as_slice());
            proof {
                assert(self@.data.take(i + 1 as int) =~= self@.data.take(i as int).push(
                    self@.data[i as int],
                ));
                lemma_flat_components_push(self@.data.take(i as int), self@.data[i as int]);
            }
            i = i + 1;
        }
        proof {
            assert(self@.data.take(n as int) =~= self@.data);
        }
        r
    }
}

} // verus!
