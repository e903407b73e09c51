//! Reading the attributes from which a system descriptor is derived.
//!
//! A descriptor names the type of its system and the function that builds
//! it in attributes of the form `system_desc(type(..), fn(..))`. The
//! attributes are taken here as plain values: which items an attribute
//! lists, which name each item has, and whether what it holds is a path.
//! The paths themselves are known by a number that the caller gives them.

use vstd::prelude::*;

verus! {

/// The name of a list in an attribute.
#[derive(Clone, Copy, Debug, PartialEq, Eq, Structural)]
pub enum Key {
    /// `type`: the list holds the type of the system.
    Type,
    /// `fn`: the list holds the function that builds the system.
    Fn,
    /// Any other name.
    Other,
}

/// What stands in a list of an attribute.
#[derive(Clone, Copy, Debug, PartialEq, Eq, Structural)]
pub enum Value {
    /// A path, known by its number.
    Path(usize),
    /// Anything else: a literal, a list, a name with a value.
    Other,
}

/// An item of an attribute.
#[derive(Debug)]
pub enum Item {
    /// A named list, as in `type(Parallel)`.
    List {
        /// The name of the list.
        key: Key,
        /// What the list holds.
        values: Vec<Value>,
    },
    /// Anything else.
    Other,
}

/// An attribute `system_desc`.
#[derive(Debug)]
pub enum Attribute {
    /// A list of items, as in `system_desc(type(..), fn(..))`.
    List(Vec<Item>),
    /// Something that can be read, but is not a list.
    Other,
    /// Something that cannot be read at all.
    Malformed,
}

/// Why no descriptor can be derived.
#[derive(Clone, Copy, Debug, PartialEq, Eq, Structural)]
pub enum DescError {
    /// The attribute with the given number cannot be read.
    Malformed(usize),
    /// The attribute with the given number is not a list.
    NotAList(usize),
    /// In the attribute with the first number, the list with the second
    /// number does not hold exactly one value.
    NotOnePath(usize, usize),
    /// In the attribute with the first number, the list with the second
    /// number holds something that is not a path.
    NotAPath(usize, usize),
    /// In the attribute with the first number, the item with the second
    /// number is neither a list `type` nor a list `fn`.
    NeitherTypeNorFn(usize, usize),
    /// A second attribute gives a system type; the path with the given
    /// number is the one that was given first.
    TypeGivenTwice(usize),
    /// A second attribute gives a build function; the path with the given
    /// number is the one that was given first.
    FnGivenTwice(usize),
    /// No attribute gives the system type.
    TypeMissing,
    /// No attribute gives the build function.
    FnMissing,
}

/// The system type and the build function that were found, each a path.
#[derive(Clone, Copy, Debug, PartialEq, Eq, Structural)]
pub struct Found {
    /// The path of the system type, if one was found.
    pub system_type: Option<usize>,
    /// The path of the build function, if one was found.
    pub build_fn: Option<usize>,
}

/// What one item of the attribute with number `a` contributes, the item
/// having number `i`: a list `type` or `fn` with exactly one path gives that
/// path, which takes the place of an earlier one of its kind; everything
/// else is an error.
pub open spec fn item_read(found: Found, a: usize, i: usize, item: Item) -> Result<
    Found,
    DescError,
> {
    match item {
        Item::List { key, values } => if key == Key::Other {
            Err(DescError::NeitherTypeNorFn(a, i))
        } else if values@.len() != 1 {
            Err(DescError::NotOnePath(a, i))
        } else {
            match values@[0] {
                Value::Path(path) => if key == Key::Type {
                    Ok(Found { system_type: Some(path), ..found })
                } else {
                    Ok(Found { build_fn: Some(path), ..found })
                },
                Value::Other => Err(DescError::NotAPath(a, i)),
            }
        },
        Item::Other => Err(DescError::NeitherTypeNorFn(a, i)),
    }
}

/// What the first `n` items of an attribute give: the error of the first
/// item that is wrong or, where none is, the last path of either kind.
pub open spec fn items_read(a: usize, items: Seq<Item>, n: nat) -> Result<Found, DescError>
    decreases n,
{
    if n == 0 {
        Ok(Found { system_type: None, build_fn: None })
    } else {
        match items_read(a, items, (n - 1) as nat) {
            Ok(found) => item_read(found, a, (n - 1) as usize, items[n - 1]),
            Err(e) => Err(e),
        }
    }
}

/// What an attribute gives.
pub open spec fn attribute_read(a: usize, attribute: Attribute) -> Result<Found, DescError> {
    match attribute {
        Attribute::List(items) => items_read(a, items@, items@.len()),
        Attribute::Other => Err(DescError::NotAList(a)),
        Attribute::Malformed => Err(DescError::Malformed(a)),
    }
}

/// What an attribute adds to what the attributes before it gave: its own
/// error, or its paths, where a path of a kind that was given before is an
/// error, the system type being looked at first.
pub open spec fn merged(found: Found, read: Result<Found, DescError>) -> Result<Found, DescError> {
    match read {
        Err(e) => Err(e),
        Ok(new) => if new.system_type is Some && found.system_type is Some {
            Err(DescError::TypeGivenTwice(found.system_type->0))
        } else if new.build_fn is Some && found.build_fn is Some {
            Err(DescError::FnGivenTwice(found.build_fn->0))
        } else {
            Ok(
                Found {
                    system_type: if new.system_type is Some {
                        new.system_type
                    } else {
                        found.system_type
                    },
                    build_fn: if new.build_fn is Some {
                        new.build_fn
                    } else {
                        found.build_fn
                    },
                },
            )
        },
    }
}

/// What the first `n` attributes give together.
pub open spec fn attributes_read(attributes: Seq<Attribute>, n: nat) -> Result<Found, DescError>
    decreases n,
{
    if n == 0 {
        Ok(Found { system_type: None, build_fn: None })
    } else {
        match attributes_read(attributes, (n - 1) as nat) {
            Ok(found) => merged(found, attribute_read((n - 1) as usize, attributes[n - 1])),
            Err(e) => Err(e),
        }
    }
}

/// The descriptor that the attributes give: the paths of the system type
/// and of the build function, or why there is none.
pub open spec fn described(attributes: Seq<Attribute>) -> Result<(usize, usize), DescError> {
    match attributes_read(attributes, attributes.len()) {
        Err(e) => Err(e),
        Ok(found) => if found.system_type is None {
            Err(DescError::TypeMissing)
        } else if found.build_fn is None {
            Err(DescError::FnMissing)
        } else {
            Ok((found.system_type->0, found.build_fn->0))
        },
    }
}

/// Read one attribute `system_desc`, which has the number `a` among the
/// attributes of its kind.
pub fn parse_attribute(a: usize, attribute: &Attribute) -> (read: Result<Found, DescError>)
    ensures
        read == attribute_read(a, *attribute),
{
    let items = match attribute {
        Attribute::List(items) => items,
        Attribute::Other => {
            return Err(DescError::NotAList(a));
        },
        Attribute::Malformed => {
            return Err(DescError::Malformed(a));
        },
    };
    let mut found = Found { system_type: None, build_fn: None };
    let mut i: usize = 0;
    while i < items.len()
        invariant
            i <= items@.len(),
            *attribute == Attribute::List(*items),
            items_read(a, items@, i as nat) == Ok::<Found, DescError>(found),
        decreases items@.len() - i,
    {
        match &items[i] {
            Item::List { key, values } => {
                let is_type = match key {
                    Key::Type => true,
                    Key::Fn => false,
                    Key::Other => {
                        proof {
                            lemma_item_error_stays(a, items@, (i + 1) as nat, items@.len());
                        }
                        return Err(DescError::NeitherTypeNorFn(a, i));
                    },
                };
                if values.len() != 1 {
                    proof {
                            lemma_item_error_stays(a, items@, (i + 1) as nat, items@.len());
                        }
                        return Err(DescError::NotOnePath(a, i));
                }
                match values[0] {
                    Value::Path(path) => {
                        if is_type {
                            found.system_type = Some(path);
                        } else {
                            found.build_fn = Some(path);
                        }
                    },
                    Value::Other => {
                        proof {
                            lemma_item_error_stays(a, items@, (i + 1) as nat, items@.len());
                        }
                        return Err(DescError::NotAPath(a, i));
                    },
                }
            },
            Item::Other => {
                proof {
                            lemma_item_error_stays(a, items@, (i + 1) as nat, items@.len());
                        }
                        return Err(DescError::NeitherTypeNorFn(a, i));
            },
        }
        i += 1;
    }
    Ok(found)
}

/// Derive the descriptor from the attributes `system_desc` of a type: the
/// paths of the system type and of the build function. Each must be given,
/// and by one attribute only.
pub fn derive(attributes: &Vec<Attribute>) -> (desc: Result<(usize, usize), DescError>)
    ensures
        desc == described(attributes@),
{
    let mut found = Found { system_type: None, build_fn: None };
    let mut a: usize = 0;
    while a < attributes.len()
        invariant
            a <= attributes@.len(),
            attributes_read(attributes@, a as nat) == Ok::<Found, DescError>(found),
        decreases attributes@.len() - a,
    {
        let parsed = match parse_attribute(a, &attributes[a]) {
            Ok(parsed) => parsed,
            Err(e) => {
                proof {
                    lemma_error_stays(attributes@, (a + 1) as nat, attributes@.len());
                }
                return Err(e);
            },
        };
        if let Some(path) = parsed.system_type {
            if let Some(first) = found.system_type {
                proof {
                    lemma_error_stays(attributes@, (a + 1) as nat, attributes@.len());
                }
                return Err(DescError::TypeGivenTwice(first));
            }
            found.system_type = Some(path);
        }
        if let Some(path) = parsed.build_fn {
            if let Some(first) = found.build_fn {
                proof {
                    lemma_error_stays(attributes@, (a + 1) as nat, attributes@.len());
                }
                return Err(DescError::FnGivenTwice(first));
            }
            found.build_fn = Some(path);
        }
        a += 1;
    }
    let system_type = match found.system_type {
        Some(path) => path,
        None => {
            return Err(DescError::TypeMissing);
        },
    };
    let build_fn = match found.build_fn {
        Some(path) => path,
        None => {
            return Err(DescError::FnMissing);
        },
    };
    Ok((system_type, build_fn))
}

/// Once the items give an error, more items do not change it.
proof fn lemma_item_error_stays(a: usize, items: Seq<Item>, n: nat, m: nat)
    requires
        n <= m,
        items_read(a, items, n) is Err,
    ensures
        items_read(a, items, m) == items_read(a, items, n),
    decreases m,
{
    if n < m {
        lemma_item_error_stays(a, items, n, (m - 1) as nat);
    }
}

/// Once the attributes give an error, more attributes do not change it.
proof fn lemma_error_stays(attributes: Seq<Attribute>, n: nat, m: nat)
    requires
        n <= m,
        attributes_read(attributes, n) is Err,
    ensures
        attributes_read(attributes, m) == attributes_read(attributes, n),
    decreases m,
{
    if n < m {
        lemma_error_stays(attributes, n, (m - 1) as nat);
    }
}

} // verus!
