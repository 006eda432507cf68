use vstd::prelude::*;
use vstd::string::to_string_from_display_ensures;

verus! {

/// The separator between a description and the message of the wrapped error.
pub open spec fn separator() -> Seq<char> {
    seq![':', ' ']
}

/// What a [`Described`] holds: its description and the error it wraps.
pub struct DescribedView<E> {
    pub description: Seq<char>,
    pub original: E,
}

impl<E> DescribedView<E> {
    /// The message of a described error, given the message of the wrapped
    /// error: the description, a colon and a space, then that message.
    pub open spec fn message(self, original_message: Seq<char>) -> Seq<char> {
        self.description + separator() + original_message
    }
}

/// The value that wrapping `original` with `description` gives.
pub open spec fn built<E>(description: Seq<char>, original: E) -> DescribedView<E> {
    DescribedView { description, original }
}

/// An error wrapper with a description.
///
/// The description and the wrapped error are set once, when the value is
/// built, and never change afterwards: no method takes `&mut self`.
#[derive(Debug)]
pub struct Described<E> {
    description: String,
    original: E,
}

impl<E> View for Described<E> {
    type V = DescribedView<E>;

    closed spec fn view(&self) -> DescribedView<E> {
        DescribedView { description: self.description@, original: self.original }
    }
}

impl<E> Described<E> {
    /// Wraps `original` with `description`.
    pub fn new(description: String, original: E) -> (r: Self)
        ensures
            r@ == built(description@, original),
    {
        Described { description, original }
    }

    /// Directly retrieves the error description.
    pub fn description(&self) -> (r: &str)
        ensures
            r@ == self@.description,
    {
        self.description.as_str()
    }

    /// Directly retrieves the original error, with its own type.
    ///
    /// Unlike a generic cause accessor, this gives exactly the wrapped type, so
    /// no runtime type check is needed to use it.
    pub fn original(&self) -> (r: &E)
        ensures
            *r == self@.original,
    {
        &self.original
    }

    /// Takes this value apart into its description and its original error.
    pub fn into_parts(self) -> (r: (String, E))
        ensures
            r.0@ == self@.description,
            r.1 == self@.original,
    {
        (self.description, self.original)
    }

    /// Renders this error, given the already rendered message of the wrapped
    /// error.
    pub fn message(&self, original_message: &str) -> (r: String)
        ensures
            r@ == self@.message(original_message@),
    {
        let sep = ": ";
        proof {
            reveal_strlit(": ");
        }
        assert(sep@ == separator());
        self.description.clone().concat(sep).concat(original_message)
    }

    /// Renders this error: the description, a colon and a space, then the
    /// wrapped error as its `Display` renders it.
    pub fn to_string(&self) -> (r: String) where E: core::fmt::Display
        ensures
            exists|m: String|
                to_string_from_display_ensures::<E>(&self@.original, m) && r@ == self@.message(
                    m@,
                ),
    {
        let m = self.original.to_string();
        let r = self.message(m.as_str());
        assert(to_string_from_display_ensures::<E>(&self@.original, m) && r@ == self@.message(m@));
        r
    }
}

/// Wraps an error with a description.
///
/// The closure returned is meant for `map_err`: it takes the error of a failed
/// operation and wraps it with `description`.
pub fn describe<E>(description: &str) -> (f: impl FnOnce(E) -> Described<E>)
    ensures
        forall|o: E| f.requires((o,)),
        forall|o: E, r: Described<E>| f.ensures((o,), r) ==> r@ == built(description@, o),
{
    let description = description.to_string();
    move |original: E| -> (r: Described<E>)
        ensures
            r@ == built(description@, original),
        { Described::new(description, original) }
}

/// Passes a success through and wraps a failure with `text`, the source text
/// of the operation that produced `result`.
pub fn describing<T, E>(result: Result<T, E>, text: &str) -> (r: Result<T, Described<E>>)
    ensures
        match result {
            Ok(v) => r == Ok::<T, Described<E>>(v),
            Err(o) => r matches Err(d) && d@ == built(text@, o),
        },
{
    match result {
        Ok(v) => Ok(v),
        Err(o) => Err(describe(text)(o)),
    }
}

/// Reading back a value built from a description and an error gives that
/// description and that error, unchanged.
pub proof fn lemma_read_back<E>(description: Seq<char>, original: E)
    ensures
        built(description, original).description == description,
        built(description, original).original == original,
{
}

/// The message of a value built from `description` and `original`, where
/// `original` renders as `original_message`, is the description, `": "`, then
/// that message.
pub proof fn lemma_message<E>(description: Seq<char>, original: E, original_message: Seq<char>)
    ensures
        built(description, original).message(original_message) == description + seq![':', ' ']
            + original_message,
{
}

/// One step down the chain of causes from a wrapper around a wrapper reaches
/// the inner wrapper unchanged, and one more step reaches its own error.
pub proof fn lemma_cause_chain<E>(
    outer: Seq<char>,
    inner: Seq<char>,
    original: E,
    wrapped: Described<E>,
)
    requires
        wrapped@ == built(inner, original),
    ensures
        built(outer, wrapped).original == wrapped,
        built(outer, wrapped).original@.original == original,
{
}

} // verus!
