//! Memory layout: the byte size of every type and the byte offset of
//! every struct field, computed from field order with fields laid out
//! consecutively. Code generation and any runtime layout assumption must
//! agree with these rules, so they are stated once, here.
//!
//! A struct may only mention structs defined before it (the analyzer
//! enforces this), so sizes are well-founded over the struct table.
use vstd::prelude::*;

use crate::ast::{view_struct_seq, view_variables, Struct, StructV, Type, TypeV, VariableV};

verus! {

broadcast use vstd::std_specs::vec::group_vec_axioms, vstd::seq::group_seq_axioms;

/// The index of the struct with the given name among indices `j ..
/// structs.len()`, if any.
pub open spec fn spec_struct_index(structs: Seq<StructV>, name: Seq<char>, j: int) -> Option<int>
    decreases structs.len() - j,
{
    if j < 0 || j >= structs.len() {
        None
    } else if structs[j].name == name {
        Some(j)
    } else {
        spec_struct_index(structs, name, j + 1)
    }
}

/// How deeply pointers and arrays nest in a type: the structural
/// measure size computations recurse along.
pub open spec fn tv_depth(t: TypeV) -> nat
    decreases t,
{
    match t {
        TypeV::Pointer(p) => 1 + tv_depth(*p),
        TypeV::Array(p, _) => 1 + tv_depth(*p),
        _ => 0,
    }
}

/// The byte size of a type: int and float are four bytes, double and
/// pointers eight, char and bool one; a fixed array is its element count
/// times the element size; an array of unknown length decays to a
/// pointer; a struct is the sum of its field sizes in declaration order.
pub open spec fn spec_type_size(structs: Seq<StructV>, t: TypeV) -> int
    decreases structs.len(), 1int, tv_depth(t),
{
    match t {
        TypeV::Void => 0,
        TypeV::Int => 4,
        TypeV::Float => 4,
        TypeV::Double => 8,
        TypeV::Char => 1,
        TypeV::Bool => 1,
        TypeV::Pointer(_) => 8,
        TypeV::Function(_, _) => 8,
        TypeV::Array(p, n) => match n {
            Some(k) => if k >= 0 {
                k * spec_type_size(structs, *p)
            } else {
                0
            },
            None => 8,
        },
        TypeV::Struct(name) => if structs.len() == 0 {
            0
        } else {
            match spec_struct_index(structs, name, 0) {
                Some(i) => {
                    let j = if 0 <= i < structs.len() {
                        i
                    } else {
                        0
                    };
                    spec_fields_size(structs.take(j), structs[j].fields, 0)
                },
                None => 0,
            }
        },
    }
}

/// The summed size of the fields from index `k` on.
pub open spec fn spec_fields_size(structs: Seq<StructV>, fields: Seq<VariableV>, k: int) -> int
    decreases structs.len(), 2int, fields.len() - k,
{
    if k < 0 || k >= fields.len() {
        0
    } else {
        spec_type_size(structs, fields[k].var_type) + spec_fields_size(structs, fields, k + 1)
    }
}

/// The byte offset of the named field: the sum of the sizes of the
/// fields declared before it. A name that is no field has no offset.
pub open spec fn spec_field_offset(structs: Seq<StructV>, fields: Seq<VariableV>, name: Seq<char>, k: int)
    -> Option<int>
    decreases fields.len() - k,
{
    if k < 0 || k >= fields.len() {
        None
    } else if fields[k].name == name {
        Some(spec_fields_size_upto(structs, fields, k))
    } else {
        spec_field_offset(structs, fields, name, k + 1)
    }
}

/// The summed size of the fields before index `k`.
pub open spec fn spec_fields_size_upto(structs: Seq<StructV>, fields: Seq<VariableV>, k: int) -> int
    decreases k,
{
    if k <= 0 || k > fields.len() {
        0
    } else {
        spec_fields_size_upto(structs, fields, k - 1) + spec_type_size(structs, fields[k - 1].var_type)
    }
}

/// In a struct whose fields are two `int`s, the fields sit at offsets
/// zero and four: member access at index one reads and writes the second
/// field's memory, four bytes past the first.
pub proof fn lemma_two_int_fields_offsets(
    structs: Seq<StructV>,
    fields: Seq<VariableV>,
)
    requires
        fields.len() == 2,
        fields[0].var_type is Int,
        fields[1].var_type is Int,
        fields[0].name != fields[1].name,
    ensures
        spec_field_offset(structs, fields, fields[0].name, 0) == Some(0int),
        spec_field_offset(structs, fields, fields[1].name, 0) == Some(4int),
{
    assert(spec_fields_size_upto(structs, fields, 0) == 0);
    assert(spec_fields_size_upto(structs, fields, 1) == 4);
    assert(spec_field_offset(structs, fields, fields[1].name, 1) == Some(
        spec_fields_size_upto(structs, fields, 1),
    ));
}

/// Such a struct occupies eight consecutive bytes.
pub proof fn lemma_two_int_fields_size(structs: Seq<StructV>, st: StructV)
    requires
        st.fields.len() == 2,
        st.fields[0].var_type is Int,
        st.fields[1].var_type is Int,
    ensures
        spec_fields_size(structs, st.fields, 0) == 8,
{
    assert(spec_fields_size(structs, st.fields, 2) == 0);
    assert(spec_type_size(structs, st.fields[1].var_type) == 4);
    assert(spec_type_size(structs, st.fields[0].var_type) == 4);
    assert(spec_fields_size(structs, st.fields, 1) == 4);
}

// ---------------------------------------------------------------------
// Executable layout, pinned to the rules above: what a target emitter
// calls when it lowers member access and allocates frames.
// ---------------------------------------------------------------------

/// A size that surely fits the machine: the analyzer bounds array
/// lengths, and a computed size beyond this bound is refused.
pub open spec fn size_fits(n: int) -> bool {
    0 <= n <= 0x7fffffff
}

fn struct_index(structs: &Vec<Struct>, name: &String, j: usize) -> (r: Option<usize>)
    requires
        j <= structs@.len(),
    ensures
        (match r {
            Some(k) => j <= k < structs@.len() && spec_struct_index(
                view_struct_seq(structs@),
                name@,
                j as int,
            ) == Some(k as int),
            None => spec_struct_index(view_struct_seq(structs@), name@, j as int) is None,
        }),
    decreases structs@.len() - j,
{
    if j >= structs.len() {
        None
    } else if structs[j].name.eq(name) {
        Some(j)
    } else {
        struct_index(structs, name, j + 1)
    }
}

/// The byte size of a type, or `None` where it would not fit the
/// machine. The whole struct table is in scope; only the part before the
/// struct's own definition can be reached through resolved names.
pub fn type_size(structs: &Vec<Struct>, end: usize, t: &Type) -> (r: Option<usize>)
    requires
        end <= structs@.len(),
    ensures
        (match r {
            Some(n) => spec_type_size(view_struct_seq(structs@).take(end as int), t.deep_view())
                == n as int,
            None => !size_fits(
                spec_type_size(view_struct_seq(structs@).take(end as int), t.deep_view()),
            ),
        }),
    decreases end, 1nat, tv_depth(t.deep_view()),
{
    let ghost prefix = view_struct_seq(structs@).take(end as int);
    match t {
        Type::Void => Some(0),
        Type::Int => Some(4),
        Type::Float => Some(4),
        Type::Double => Some(8),
        Type::Char => Some(1),
        Type::Bool => Some(1),
        Type::Pointer(_) => Some(8),
        Type::Function(_, _) => Some(8),
        Type::Array(p, n) => match n {
            Some(k) => {
                let k = *k;
                if k == 0 {
                    proof {
                        assert(0int * spec_type_size(prefix, p.deep_view()) == 0)
                            by (nonlinear_arith);
                    }
                    return Some(0);
                }
                match type_size(structs, end, p) {
                    Some(es) => {
                        if es == 0 {
                            proof {
                                assert((k as int) * 0int == 0) by (nonlinear_arith);
                            }
                            return Some(0);
                        }
                        if k <= 0x7fffffff / es {
                            proof {
                                assert((k as int) * (es as int) <= 0x7fffffff)
                                    by (nonlinear_arith)
                                    requires
                                        (k as int) <= 0x7fffffffint / (es as int),
                                        (es as int) > 0,
                                        (k as int) > 0,
                                ;
                            }
                            Some(k * es)
                        } else {
                            proof {
                                assert((k as int) * (es as int) > 0x7fffffff)
                                    by (nonlinear_arith)
                                    requires
                                        (k as int) > 0x7fffffffint / (es as int),
                                        (es as int) > 0,
                                        (k as int) > 0,
                                ;
                            }
                            None
                        }
                    },
                    None => {
                        proof {
                            lemma_size_nonneg(prefix, p.deep_view());
                            assert((k as int) * spec_type_size(prefix, p.deep_view())
                                > 0x7fffffff) by (nonlinear_arith)
                                requires
                                    spec_type_size(prefix, p.deep_view()) > 0x7fffffff
                                        || spec_type_size(prefix, p.deep_view()) < 0,
                                    spec_type_size(prefix, p.deep_view()) >= 0,
                                    (k as int) >= 1,
                            ;
                        }
                        None
                    },
                }
            },
            None => Some(8),
        },
        Type::Struct(name) => {
            let found = struct_index(structs, name, 0);
            proof {
                lemma_struct_index_take(structs@, name@, 0, end as int);
            }
            match found {
                Some(i) => {
                    if i < end {
                        proof {
                            assert(view_struct_seq(structs@).take(end as int).take(i as int)
                                =~= view_struct_seq(structs@).take(i as int));
                            assert(view_struct_seq(structs@).take(end as int)[i as int]
                                == crate::ast::view_struct(structs@[i as int]));
                        }
                        fields_size(structs, i, 0)
                    } else {
                        Some(0)
                    }
                },
                None => Some(0),
            }
        },
    }
}

/// Searching a prefix of the struct table equals searching the whole
/// table when the hit lies inside the prefix.
proof fn lemma_struct_index_take(structs: Seq<Struct>, name: Seq<char>, j: int, end: int)
    requires
        0 <= j,
        0 <= end <= structs.len(),
    ensures
        (match spec_struct_index(view_struct_seq(structs), name, j) {
            Some(k) => if k < end {
                spec_struct_index(view_struct_seq(structs).take(end), name, j) == Some(k)
            } else {
                j <= end ==> spec_struct_index(view_struct_seq(structs).take(end), name, j)
                    is None
            },
            None => j <= end ==> spec_struct_index(view_struct_seq(structs).take(end), name, j)
                is None,
        }),
    decreases structs.len() - j,
{
    assert(view_struct_seq(structs).take(end).len() == end);
    if j < end {
        assert(view_struct_seq(structs).take(end)[j] == view_struct_seq(structs)[j]);
    }
    if j < structs.len() {
        lemma_struct_index_take(structs, name, j + 1, end);
    }
}

/// Sizes are never negative.
pub proof fn lemma_size_nonneg(structs: Seq<StructV>, t: TypeV)
    ensures
        spec_type_size(structs, t) >= 0,
    decreases structs.len(), 1int, tv_depth(t),
{
    match t {
        TypeV::Array(p, n) => {
            lemma_size_nonneg(structs, *p);
            match n {
                Some(k) => {
                    if k >= 0 {
                        assert(k * spec_type_size(structs, *p) >= 0) by (nonlinear_arith)
                            requires
                                k >= 0,
                                spec_type_size(structs, *p) >= 0,
                        ;
                    }
                },
                None => {},
            }
        },
        TypeV::Struct(name) => {
            if structs.len() > 0 {
                match spec_struct_index(structs, name, 0) {
                    Some(i) => {
                        let j = if 0 <= i < structs.len() {
                            i
                        } else {
                            0int
                        };
                        lemma_fields_size_nonneg(structs.take(j), structs[j].fields, 0);
                    },
                    None => {},
                }
            }
        },
        _ => {},
    }
}

proof fn lemma_fields_size_nonneg(structs: Seq<StructV>, fields: Seq<VariableV>, k: int)
    ensures
        spec_fields_size(structs, fields, k) >= 0,
    decreases structs.len(), 2int, fields.len() - k,
{
    if 0 <= k < fields.len() {
        lemma_size_nonneg(structs, fields[k].var_type);
        lemma_fields_size_nonneg(structs, fields, k + 1);
    }
}

/// The summed size of the fields of struct `sidx` from index `k` on,
/// measured against the structs defined before it.
fn fields_size(structs: &Vec<Struct>, sidx: usize, k: usize) -> (r: Option<usize>)
    requires
        sidx < structs@.len(),
        k <= structs@[sidx as int].fields@.len(),
    ensures
        (match r {
            Some(n) => spec_fields_size(
                view_struct_seq(structs@).take(sidx as int),
                view_variables(structs@[sidx as int].fields@),
                k as int,
            ) == n as int,
            None => !size_fits(
                spec_fields_size(
                    view_struct_seq(structs@).take(sidx as int),
                    view_variables(structs@[sidx as int].fields@),
                    k as int,
                ),
            ),
        }),
    decreases sidx, 2nat, structs@[sidx as int].fields@.len() - k,
{
    let fields = &structs[sidx].fields;
    if k >= fields.len() {
        Some(0)
    } else {
        let head = type_size(structs, sidx, &fields[k].var_type);
        let tail = fields_size(structs, sidx, k + 1);
        proof {
            lemma_size_nonneg(
                view_struct_seq(structs@).take(sidx as int),
                fields@[k as int].var_type.deep_view(),
            );
            lemma_fields_size_nonneg(
                view_struct_seq(structs@).take(sidx as int),
                view_variables(structs@[sidx as int].fields@),
                k as int + 1,
            );
        }
        match (head, tail) {
            (Some(a), Some(b)) => {
                if a <= 0x7fffffff && b <= 0x7fffffff && a + b <= 0x7fffffff {
                    Some(a + b)
                } else {
                    None
                }
            },
            _ => None,
        }
    }
}

/// The byte offset of the named field of the named struct, or `None`
/// where the struct or the field does not exist or the layout would not
/// fit the machine. This is the offset member access lowers to.
pub fn field_offset(structs: &Vec<Struct>, struct_name: &String, field_name: &String) -> (r:
    Option<usize>)
    ensures
        (match spec_struct_index(view_struct_seq(structs@), struct_name@, 0) {
            Some(i) => (match spec_field_offset(
                view_struct_seq(structs@).take(i),
                view_variables(structs@[i].fields@),
                field_name@,
                0,
            ) {
                Some(off) => if size_fits(off) {
                    r == Some(off as usize)
                } else {
                    r is None
                },
                None => r is None,
            }),
            None => r is None,
        }),
{
    let found = struct_index(structs, struct_name, 0);
    match found {
        Some(i) => field_offset_from(structs, i, field_name, 0),
        None => None,
    }
}

fn field_offset_from(structs: &Vec<Struct>, sidx: usize, field_name: &String, k: usize) -> (r:
    Option<usize>)
    requires
        sidx < structs@.len(),
        k <= structs@[sidx as int].fields@.len(),
    ensures
        (match spec_field_offset(
            view_struct_seq(structs@).take(sidx as int),
            view_variables(structs@[sidx as int].fields@),
            field_name@,
            k as int,
        ) {
            Some(off) => if size_fits(off) {
                r == Some(off as usize)
            } else {
                r is None
            },
            None => r is None,
        }),
    decreases structs@[sidx as int].fields@.len() - k,
{
    let fields = &structs[sidx].fields;
    if k >= fields.len() {
        None
    } else if fields[k].name.eq(field_name) {
        match fields_size_upto(structs, sidx, k) {
            Some(off) => Some(off),
            None => None,
        }
    } else {
        field_offset_from(structs, sidx, field_name, k + 1)
    }
}

fn fields_size_upto(structs: &Vec<Struct>, sidx: usize, k: usize) -> (r: Option<usize>)
    requires
        sidx < structs@.len(),
        k <= structs@[sidx as int].fields@.len(),
    ensures
        (match r {
            Some(n) => spec_fields_size_upto(
                view_struct_seq(structs@).take(sidx as int),
                view_variables(structs@[sidx as int].fields@),
                k as int,
            ) == n as int && n <= 0x7fffffff,
            None => !size_fits(
                spec_fields_size_upto(
                    view_struct_seq(structs@).take(sidx as int),
                    view_variables(structs@[sidx as int].fields@),
                    k as int,
                ),
            ),
        }),
    decreases k,
{
    if k == 0 {
        Some(0)
    } else {
        let fields = &structs[sidx].fields;
        let head = fields_size_upto(structs, sidx, k - 1);
        let this = type_size(structs, sidx, &fields[k - 1].var_type);
        proof {
            lemma_fields_size_upto_nonneg(
                view_struct_seq(structs@).take(sidx as int),
                view_variables(structs@[sidx as int].fields@),
                k as int - 1,
            );
            lemma_size_nonneg(
                view_struct_seq(structs@).take(sidx as int),
                fields@[k as int - 1].var_type.deep_view(),
            );
        }
        match (head, this) {
            (Some(a), Some(b)) => {
                if a <= 0x7fffffff && b <= 0x7fffffff && a + b <= 0x7fffffff {
                    Some(a + b)
                } else {
                    None
                }
            },
            _ => None,
        }
    }
}

proof fn lemma_fields_size_upto_nonneg(structs: Seq<StructV>, fields: Seq<VariableV>, k: int)
    ensures
        spec_fields_size_upto(structs, fields, k) >= 0,
    decreases k,
{
    if 0 < k <= fields.len() {
        lemma_fields_size_upto_nonneg(structs, fields, k - 1);
        lemma_size_nonneg(structs, fields[k - 1].var_type);
    }
}

} // verus!
