//! 3D scene choices that are plain values: the rendering back end, and the
//! field that gives prisms their height.

use vstd::prelude::*;

use crate::attrtable::Cell;

verus! {

/// Rendering back end of a 3D scene.
#[derive(Clone, Copy, PartialEq, Eq, Debug, Default, Structural)]
pub enum SceneBackend {
    /// Software painter (stable default).
    #[default]
    Software,
    /// wgpu pipeline.
    Wgpu,
}

/// The first key of `p` whose value is a number.
pub open spec fn first_numeric_key(p: Seq<(String, Cell)>) -> Option<Seq<char>>
    decreases p.len(),
{
    if p.len() == 0 {
        None
    } else if p[0].1 is Number {
        Some(p[0].0@)
    } else {
        first_numeric_key(p.drop_first())
    }
}

/// The height field: the first numeric property met, feature by feature
/// and property by property.
pub open spec fn height_field_of(rows: Seq<Option<Vec<(String, Cell)>>>) -> Option<Seq<char>>
    decreases rows.len(),
{
    if rows.len() == 0 {
        None
    } else {
        let here = match rows[0] {
            Some(p) => first_numeric_key(p@),
            None => None,
        };
        if here is Some {
            here
        } else {
            height_field_of(rows.drop_first())
        }
    }
}

/// The first numeric key of a feature's properties.
fn numeric_key(p: &Vec<(String, Cell)>) -> (r: Option<String>)
    ensures
        match r {
            Some(k) => first_numeric_key(p@) == Some(k@),
            None => first_numeric_key(p@) is None,
        },
{
    let n = p.len();
    let mut i: usize = 0;
    assert(p@.skip(0) =~= p@);
    while i < n
        invariant
            n == p@.len(),
            i <= n,
            first_numeric_key(p@) == first_numeric_key(p@.skip(i as int)),
        decreases n - i,
    {
        assert(p@.skip(i as int)[0] == p@[i as int]);
        assert(p@.skip(i as int).drop_first() =~= p@.skip(i + 1));
        if let Cell::Number(_) = &p[i].1 {
            return Some(p[i].0.clone());
        }
        i = i + 1;
    }
    assert(p@.skip(n as int) =~= Seq::<(String, Cell)>::empty());
    None
}

/// The field prisms are raised by: the first numeric property of the
/// features, in order; `None` when there is none (a constant height is used).
pub fn height_field(rows: &Vec<Option<Vec<(String, Cell)>>>) -> (r: Option<String>)
    ensures
        match r {
            Some(k) => height_field_of(rows@) == Some(k@),
            None => height_field_of(rows@) is None,
        },
{
    let n = rows.len();
    let mut i: usize = 0;
    assert(rows@.skip(0) =~= rows@);
    while i < n
        invariant
            n == rows@.len(),
            i <= n,
            height_field_of(rows@) == height_field_of(rows@.skip(i as int)),
        decreases n - i,
    {
        assert(rows@.skip(i as int)[0] == rows@[i as int]);
        assert(rows@.skip(i as int).drop_first() =~= rows@.skip(i + 1));
        if let Some(p) = &rows[i] {
            if let Some(k) = numeric_key(p) {
                return Some(k);
            }
        }
        i = i + 1;
    }
    assert(rows@.skip(n as int) =~= Seq::<Option<Vec<(String, Cell)>>>::empty());
    None
}

} // verus!
