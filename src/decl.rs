//! Validation of a page declaration: the closed list of variants from which the
//! dispatcher is generated. A declaration is accepted only when it is an enum whose
//! every variant holds exactly one unnamed field, the page type.
use vstd::prelude::*;

verus! {

/// The fields of one variant, by shape and count.
#[derive(Clone, Copy, Debug, PartialEq, Eq)]
pub enum VariantFields {
    Unit,
    Named(usize),
    Unnamed(usize),
}

/// The kind of item that a declaration is, with its variants if it is an enum.
#[derive(Clone, Debug, PartialEq, Eq)]
pub enum PageDecl {
    Struct,
    Union,
    Enum(Vec<VariantFields>),
}

/// Why a declaration cannot produce a dispatcher.
#[derive(Clone, Copy, Debug, PartialEq, Eq)]
pub enum DeclError {
    /// The declaration is not an enum.
    NotAnEnum,
    /// The variant at this index does not hold exactly one unnamed field.
    BadVariant(usize),
}

/// A variant that names a page: exactly one unnamed field.
pub open spec fn is_page_variant(f: VariantFields) -> bool {
    f == VariantFields::Unnamed(1)
}

/// The index of the first variant that is not a page variant, if any.
pub open spec fn first_bad_variant(vs: Seq<VariantFields>) -> Option<int> {
    if exists|i: int| 0 <= i < vs.len() && !is_page_variant(vs[i]) {
        Some(
            choose|i: int|
                0 <= i < vs.len() && !is_page_variant(vs[i]) && forall|j: int|
                    0 <= j < i ==> is_page_variant(#[trigger] vs[j]),
        )
    } else {
        None
    }
}

/// Picks the variants out of a declaration, which must be an enum.
pub fn get_enum(input: &PageDecl) -> (r: Result<&Vec<VariantFields>, DeclError>)
    ensures
        input matches PageDecl::Enum(vs) ==> r == Ok::<&Vec<VariantFields>, DeclError>(&vs),
        !(input is Enum) ==> r == Err::<&Vec<VariantFields>, DeclError>(DeclError::NotAnEnum),
{
    match input {
        PageDecl::Enum(vs) => Ok(vs),
        _ => Err(DeclError::NotAnEnum),
    }
}

/// Checks that every variant holds exactly one unnamed field, and returns how many
/// pages there are; otherwise names the first variant that does not.
pub fn get_pages_variants(variants: &Vec<VariantFields>) -> (r: Result<usize, DeclError>)
    ensures
        (forall|i: int| 0 <= i < variants@.len() ==> is_page_variant(#[trigger] variants@[i]))
            ==> r == Ok::<usize, DeclError>(variants@.len() as usize),
        (exists|i: int| 0 <= i < variants@.len() && !is_page_variant(#[trigger] variants@[i]))
            ==> r == Err::<usize, DeclError>(DeclError::BadVariant(first_bad_variant(variants@)->0 as usize)),
{
    let mut i: usize = 0;
    while i < variants.len()
        invariant
            i <= variants@.len(),
            forall|j: int| 0 <= j < i ==> is_page_variant(#[trigger] variants@[j]),
        decreases variants.len() - i,
    {
        match variants[i] {
            VariantFields::Unnamed(1) => {},
            _ => {
                proof {
                    let w = i as int;
                    assert(!is_page_variant(variants@[w]));
                    let c = first_bad_variant(variants@)->0;
                    assert(0 <= c < variants@.len() && !is_page_variant(variants@[c]));
                    if c < w {
                    } else if c > w {
                        assert(is_page_variant(variants@[w]));
                    }
                }
                return Err(DeclError::BadVariant(i));
            },
        }
        i = i + 1;
    }
    Ok(variants.len())
}

/// Checks a whole declaration: `Ok` with the number of pages exactly when it is an enum
/// whose every variant is a page variant.
pub fn check_page_declaration(input: &PageDecl) -> (r: Result<usize, DeclError>)
    ensures
        !(input is Enum) ==> r == Err::<usize, DeclError>(DeclError::NotAnEnum),
        input matches PageDecl::Enum(vs) ==> {
            &&& (forall|i: int| 0 <= i < vs@.len() ==> is_page_variant(#[trigger] vs@[i]))
                ==> r == Ok::<usize, DeclError>(vs@.len() as usize)
            &&& (exists|i: int| 0 <= i < vs@.len() && !is_page_variant(#[trigger] vs@[i]))
                ==> r == Err::<usize, DeclError>(DeclError::BadVariant(first_bad_variant(vs@)->0 as usize))
        },
{
    let variants = get_enum(input)?;
    get_pages_variants(variants)
}

} // verus!
