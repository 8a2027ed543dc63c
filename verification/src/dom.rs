//! DOM access methods.
//!
//! The document that the engine has loaded is a tree of DOM elements. The
//! engine walks and changes the tree; here is what is decided around it:
//! which child is asked for, what a result code means, how an element is
//! shown.
//!
//! A result of the engine that says "done, but there is nothing" is a success
//! with an empty result throughout: see [`found`].

#![allow(non_camel_case_types, non_snake_case)]

pub mod event;

use crate::scdom::{HELEMENT, SCDOM_RESULT, SET_ELEMENT_HTML};
use vstd::prelude::*;

verus! {

/// A specialized `Result` type for DOM operations.
pub type Result<T> = std::result::Result<T, SCDOM_RESULT>;

/// The index at which an element is inserted to become the last child.
pub const APPEND_INDEX: usize = 0x7FFF_FFFF;

/// The result of a DOM operation: what it gave where the engine reports
/// success, and the engine's code where it does not.
pub fn ok_or<T>(rv: T, ok: SCDOM_RESULT) -> (r: Result<T>)
    ensures
        ok == SCDOM_RESULT::OK ==> r == Ok::<T, SCDOM_RESULT>(rv),
        ok != SCDOM_RESULT::OK ==> r == Err::<T, SCDOM_RESULT>(ok),
{
    match ok {
        SCDOM_RESULT::OK => Ok(rv),
        _ => Err(ok),
    }
}

/// The result of a DOM operation for which one more code than `OK` counts as
/// success: for the access to the DOM that is "not handled", for the call of
/// a function "operation failed".
pub fn ok_or_skip<T>(rv: T, ok: SCDOM_RESULT, skip_not_handled: SCDOM_RESULT) -> (r: Result<T>)
    ensures
        ok == SCDOM_RESULT::OK || ok == skip_not_handled ==> r == Ok::<T, SCDOM_RESULT>(rv),
        ok != SCDOM_RESULT::OK && ok != skip_not_handled ==> r == Err::<T, SCDOM_RESULT>(ok),
{
    if ok == SCDOM_RESULT::OK || ok == skip_not_handled {
        Ok(rv)
    } else {
        Err(ok)
    }
}

/// The result of a search in the DOM. "Done, but there is nothing" is a
/// success with an empty result; any other code but `OK` is the error.
pub fn found<T>(rv: T, ok: SCDOM_RESULT) -> (r: Result<Option<T>>)
    ensures
        ok == SCDOM_RESULT::OK ==> r == Ok::<Option<T>, SCDOM_RESULT>(Some(rv)),
        ok == SCDOM_RESULT::OK_NOT_HANDLED ==> r == Ok::<Option<T>, SCDOM_RESULT>(None),
        ok != SCDOM_RESULT::OK && ok != SCDOM_RESULT::OK_NOT_HANDLED ==> r == Err::<
            Option<T>,
            SCDOM_RESULT,
        >(ok),
{
    match ok {
        SCDOM_RESULT::OK => Ok(Some(rv)),
        SCDOM_RESULT::OK_NOT_HANDLED => Ok(None),
        _ => Err(ok),
    }
}

/// The visitor of a search in the DOM. The engine shows it every element
/// that it finds, one after another; the visitor keeps them in that order and
/// tells the engine after each whether to stop.
pub struct Collector<T> {
    all: Vec<T>,
    first: bool,
}

impl<T> Collector<T> {
    /// The elements that the visitor was shown, in the order in which they
    /// came.
    pub closed spec fn seen(&self) -> Seq<T> {
        self.all@
    }

    /// Whether the search is over with the first element.
    pub closed spec fn stops_at_first(&self) -> bool {
        self.first
    }

    /// A visitor for the search of the first element.
    pub fn first() -> (r: Collector<T>)
        ensures
            r.seen() == Seq::<T>::empty(),
            r.stops_at_first(),
    {
        Collector { all: Vec::new(), first: true }
    }

    /// A visitor for the search of all elements.
    pub fn all() -> (r: Collector<T>)
        ensures
            r.seen() == Seq::<T>::empty(),
            !r.stops_at_first(),
    {
        Collector { all: Vec::new(), first: false }
    }

    /// Takes the element that the engine shows, and answers whether the search
    /// is to stop.
    pub fn on_element(&mut self, el: T) -> (stop: bool)
        ensures
            final(self).seen() == old(self).seen().push(el),
            final(self).stops_at_first() == old(self).stops_at_first(),
            stop == old(self).stops_at_first(),
    {
        self.all.push(el);
        self.first
    }

    /// What the search of one element comes to, once the engine has answered
    /// `ok`: the element that was shown last where the search was done and
    /// found one, and nothing where it found none or could not be done.
    pub fn found_one(self, ok: SCDOM_RESULT) -> (r: Option<T>)
        ensures
            r == if ok == SCDOM_RESULT::OK && self.seen().len() > 0 {
                Some(self.seen().last())
            } else {
                None
            },
    {
        let mut all = self.all;
        match ok {
            SCDOM_RESULT::OK => all.pop(),
            _ => None,
        }
    }

    /// What the search of all elements comes to, once the engine has answered
    /// `ok`: all that was shown where the search was done, in its order, and
    /// nothing where it could not be done.
    pub fn found_all(self, ok: SCDOM_RESULT) -> (r: Option<Vec<T>>)
        ensures
            ok == SCDOM_RESULT::OK ==> (r matches Some(all) && all@ == self.seen()),
            ok != SCDOM_RESULT::OK ==> r is None,
    {
        match ok {
            SCDOM_RESULT::OK => Some(self.all),
            _ => None,
        }
    }
}

/// A change of an attribute of an element.
pub enum AttributeChange {
    /// Add or replace the attribute.
    Assign(String, String),
    /// Remove the attribute.
    Remove(String),
}

/// DOM element wrapper.
#[derive(Clone, Copy, PartialEq, Eq, Structural, Debug)]
pub struct Element {
    he: HELEMENT,
}

impl View for Element {
    type V = HELEMENT;

    closed spec fn view(&self) -> HELEMENT {
        self.he
    }
}

impl Element {
    /// Construct Element object from HELEMENT handle and from what the engine
    /// answered when it was asked to keep the element in use: the wrapper holds
    /// the handle where the engine agreed, and no handle where it did not.
    pub fn from(he: HELEMENT, ok: SCDOM_RESULT) -> (r: Element)
        ensures
            r@ == if ok == SCDOM_RESULT::OK { he } else { HELEMENT(0) },
    {
        Element { he: Element::use_or(he, ok) }
    }

    fn use_or(he: HELEMENT, ok: SCDOM_RESULT) -> (r: HELEMENT)
        ensures
            r == if ok == SCDOM_RESULT::OK { he } else { HELEMENT(0) },
    {
        if ok == SCDOM_RESULT::OK {
            he
        } else {
            HELEMENT(0)
        }
    }

    /// Access element pointer.
    pub fn as_ptr(&self) -> (he: HELEMENT)
        ensures
            he == self@,
    {
        self.he
    }

    /// Toggle attribute: the change that is to be made. The attribute is set to
    /// `value` where `isset`, and removed where not.
    pub fn toggle_attribute(name: &str, isset: bool, value: Option<&str>) -> (r: AttributeChange)
        requires
            isset ==> value is Some,
        ensures
            isset ==> (r matches AttributeChange::Assign(n, v) && n@ == name@ && v@ == value->0@),
            !isset ==> (r matches AttributeChange::Remove(n) && n@ == name@),
    {
        if isset {
            AttributeChange::Assign(String::from_str(name), String::from_str(value.unwrap()))
        } else {
            AttributeChange::Remove(String::from_str(name))
        }
    }

    /// Get attribute value by its name, from what the engine answered: the
    /// value where the element has the attribute, nothing where it has not.
    pub fn get_attribute(value: String, ok: SCDOM_RESULT) -> (r: Option<String>)
        ensures
            ok == SCDOM_RESULT::OK ==> r == Some(value),
            ok != SCDOM_RESULT::OK ==> r is None,
    {
        match ok {
            SCDOM_RESULT::OK => Some(value),
            SCDOM_RESULT::OK_NOT_HANDLED => None,
            _ => None,
        }
    }

    /// How html is set where the caller does not say how: it replaces the
    /// content of the element.
    pub fn set_html(how: Option<SET_ELEMENT_HTML>) -> (r: SET_ELEMENT_HTML)
        ensures
            r == (match how {
                Some(h) => h,
                None => SET_ELEMENT_HTML::SIH_REPLACE_CONTENT,
            }),
    {
        match how {
            Some(h) => h,
            None => SET_ELEMENT_HTML::SIH_REPLACE_CONTENT,
        }
    }

    /// Get first sibling element: its index among the `count` children of the
    /// parent.
    pub fn first_sibling(count: usize) -> (r: Option<usize>)
        ensures
            r == if count > 0 { Some(0usize) } else { None::<usize> },
    {
        if count > 0 {
            return Some(0);
        }
        None
    }

    /// Get last sibling element: its index among the `count` children of the
    /// parent.
    pub fn last_sibling(count: usize) -> (r: Option<usize>)
        ensures
            r == if count > 0 { Some((count - 1) as usize) } else { None::<usize> },
    {
        if count > 0 {
            return Some(count - 1);
        }
        None
    }

    /// Get next sibling element: its index among the `count` children of the
    /// parent, for the element at index `idx`.
    pub fn next_sibling(idx: usize, count: usize) -> (r: Option<usize>)
        ensures
            r == if idx + 1 < count { Some((idx + 1) as usize) } else { None::<usize> },
    {
        if idx < count && idx + 1 < count {
            return Some(idx + 1);
        }
        None
    }

    /// Get previous sibling element: its index among the `count` children of
    /// the parent, for the element at index `idx`.
    pub fn prev_sibling(idx: usize, count: usize) -> (r: Option<usize>)
        ensures
            r == if idx > 0 && idx - 1 < count { Some((idx - 1) as usize) } else { None::<usize> },
    {
        if idx > 0 && (idx - 1) < count {
            return Some(idx - 1);
        }
        None
    }

    /// Get first child element: its index.
    pub fn first_child() -> (r: usize)
        ensures
            r == 0,
    {
        0
    }

    /// Get last child element: its index among `count` children.
    pub fn last_child(count: usize) -> (r: Option<usize>)
        ensures
            r == if count > 0 { Some((count - 1) as usize) } else { None::<usize> },
    {
        if count > 0 {
            return Some(count - 1);
        }
        None
    }

    /// Remove the last child from this element: the index of the child that is
    /// to be detached, or `None` if this element is empty.
    pub fn pop(count: usize) -> (r: Option<usize>)
        ensures
            r == if count > 0 { Some((count - 1) as usize) } else { None::<usize> },
    {
        Element::last_child(count)
    }

    /// Append element as last child of this element: the index at which it is
    /// to be inserted.
    pub fn append() -> (r: usize)
        ensures
            r == APPEND_INDEX,
    {
        APPEND_INDEX
    }

    /// Whether the engine is to be asked to stop a timer of this element: an
    /// element without a handle has no timer.
    pub fn stop_timer(&self) -> (r: bool)
        ensures
            r == (self@.0 != 0),
    {
        !self.he.is_null()
    }

    /// Human element representation: `tag#id.class|type(name)`, each part
    /// only where the element has it, and `None` for an element without a
    /// handle.
    pub fn display(
        &self,
        tag: &str,
        id: Option<&str>,
        class: Option<&str>,
        kind: Option<&str>,
        name: Option<&str>,
    ) -> (s: String)
        ensures
            s@ == spec_display(self@, tag@, id, class, kind, name),
    {
        if self.he.is_null() {
            return String::from_str("None");
        }
        let mut s = String::from_str(tag);
        match id {
            Some(i) => {
                s.append("#");
                s.append(i);
            },
            None => {},
        }
        match class {
            Some(c) => {
                s.append(".");
                s.append(c);
            },
            None => {},
        }
        match kind {
            Some(t) => {
                s.append("|");
                s.append(t);
            },
            None => {},
        }
        match name {
            Some(n) => {
                s.append("(");
                s.append(n);
                s.append(")");
            },
            None => {},
        }
        assert(s@ =~= spec_display(self@, tag@, id, class, kind, name));
        s
    }
}

/// A part of the representation of an element: the mark and the text behind
/// it, or nothing where the element has no such part.
pub open spec fn spec_part(mark: Seq<char>, text: Option<&str>) -> Seq<char> {
    match text {
        Some(t) => mark + t@,
        None => Seq::empty(),
    }
}

/// Human element representation: `tag#id.class|type(name)`.
pub open spec fn spec_display(
    he: HELEMENT,
    tag: Seq<char>,
    id: Option<&str>,
    class: Option<&str>,
    kind: Option<&str>,
    name: Option<&str>,
) -> Seq<char> {
    if he.0 == 0 {
        "None"@
    } else {
        tag + spec_part("#"@, id) + spec_part("."@, class) + spec_part("|"@, kind) + (match name {
            Some(n) => "("@ + n@ + ")"@,
            None => Seq::empty(),
        })
    }
}

} // verus!
