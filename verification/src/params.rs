//! Types that requests and responses of every resource share.

use vstd::prelude::*;
use std::collections::HashMap;
use crate::text::{
    char_is_uppercase, char_to_lowercase, chars_of, is_uppercase, lowercase, push_char,
};

pub use crate::page::List;

verus! {

/// Free-form key-value pairs that can be attached to an object.
pub type Metadata = HashMap<String, String>;

/// A point in time, in seconds since the Unix epoch.
pub type Timestamp = i64;

/// A version of the API, by its release date.
#[derive(Clone, Debug, PartialEq, Eq)]
pub struct ApiVersion {
    /// The release date, such as `2020-08-27`.
    pub date: String,
}

/// How an application that uses this library presents itself.
#[derive(Clone, Default)]
pub struct AppInfo {
    pub name: String,
    pub url: Option<String>,
    pub version: Option<String>,
}

/// Header values that accompany every request.
#[derive(Clone, Default)]
pub struct Headers {
    pub client_id: Option<String>,
    pub stripe_version: Option<ApiVersion>,
    pub stripe_account: Option<String>,
    pub user_agent: Option<String>,
}

/// Implemented by types which represent API objects.
///
/// What `id` returns depends on the object alone; `spec_id` is that value in contracts. An
/// implementation that Verus checks defines `spec_id`; one written in plain Rust leaves it
/// as it is.
pub trait Object {
    /// The canonical id type for this object.
    type Id;

    /// The id of the object, in contracts.
    open spec fn spec_id(&self) -> Self::Id {
        arbitrary()
    }

    /// The id of the object.
    fn id(&self) -> (id: Self::Id)
        ensures
            id == self.spec_id(),
    ;

    /// The object's type, typically represented in wire format as the `object` property.
    fn object(&self) -> &'static str;
}

/// A deleted object.
#[derive(Clone, Debug)]
pub struct Deleted<T> {
    /// Unique identifier for the object.
    pub id: T,
    /// Always true for a deleted object.
    pub deleted: bool,
}

/// The `expand` argument of retrieve and list requests: the fields to load as objects.
pub struct Expand<'a> {
    pub expand: &'a [&'a str],
}

impl Expand<'_> {
    /// Whether no field is to be expanded, in which case the argument is left out of the
    /// request.
    pub fn is_empty(expand: &[&str]) -> (empty: bool)
        ensures
            empty == (expand@.len() == 0),
    {
        expand.len() == 0
    }
}

/// An id or object.
///
/// By default the server returns an id for most fields, but if more detail is
/// necessary the `expand` parameter can be provided to ask for the id to be
/// loaded as an object instead.
pub enum Expandable<T: Object> {
    Id(T::Id),
    Object(Box<T>),
}

impl<T> Expandable<T> where T: Object, T::Id: Clone {
    /// The id of the object, whether it was loaded or not.
    pub fn id(&self) -> (id: T::Id)
        ensures
            match *self {
                Expandable::Id(own) => cloned(own, id),
                Expandable::Object(object) => id == object.spec_id(),
            },
    {
        match self {
            Expandable::Id(id) => id.clone(),
            Expandable::Object(obj) => obj.id(),
        }
    }
}

impl<T: Object> Expandable<T> {
    /// Whether the object was loaded.
    pub fn is_object(&self) -> (loaded: bool)
        ensures
            loaded == (self is Object),
    {
        match self {
            Expandable::Id(_) => false,
            Expandable::Object(_) => true,
        }
    }

    /// The object, if it was loaded.
    pub fn as_object(&self) -> (object: Option<&T>)
        ensures
            object == (match *self {
                Expandable::Id(_) => None::<&T>,
                Expandable::Object(loaded) => Some(&*loaded),
            }),
    {
        match self {
            Expandable::Id(_) => None,
            Expandable::Object(obj) => Some(&obj),
        }
    }

    /// The object, if it was loaded, by value.
    pub fn into_object(self) -> (object: Option<T>)
        ensures
            object == (match self {
                Expandable::Id(_) => None::<T>,
                Expandable::Object(loaded) => Some(*loaded),
            }),
    {
        match self {
            Expandable::Id(_) => None,
            Expandable::Object(obj) => Some(*obj),
        }
    }
}

/// Implemented by the types that can stand for a position in a paginated collection.
///
/// An implementation that Verus checks defines `text`; one written in plain Rust leaves it
/// as it is.
pub trait AsCursor {
    /// The cursor as it is written into a request, in contracts.
    open spec fn text(&self) -> Seq<char> {
        arbitrary()
    }

    /// The cursor as it is written into a request.
    fn as_cursor(&self) -> (cursor: &str)
        ensures
            cursor@ == self.text(),
    ;
}

impl<'a> AsCursor for &'a str {
    open spec fn text(&self) -> Seq<char> {
        self@
    }

    fn as_cursor(&self) -> (cursor: &str) {
        *self
    }
}

impl AsCursor for String {
    open spec fn text(&self) -> Seq<char> {
        self@
    }

    fn as_cursor(&self) -> (cursor: &str) {
        self.as_str()
    }
}

/// Implemented by types which support cursor-based pagination,
/// typically with an id, allowing them to be fetched using a `List`
/// returned by the corresponding "list" api request.
///
/// The cursor of an item depends on the item alone. An implementation that Verus checks
/// defines `cursor_text`; one written in plain Rust leaves it as it is.
pub trait Paginate {
    type Cursor: AsCursor;

    /// The text of the item's cursor, in contracts.
    open spec fn cursor_text(&self) -> Seq<char> {
        arbitrary()
    }

    /// The item's cursor.
    fn cursor(&self) -> (cursor: Self::Cursor)
        ensures
            cursor.text() == self.cursor_text(),
    ;
}

impl<T> Paginate for T where T: Object, T::Id: AsCursor {
    type Cursor = T::Id;

    open spec fn cursor_text(&self) -> Seq<char> {
        self.spec_id().text()
    }

    fn cursor(&self) -> (cursor: Self::Cursor) {
        self.id()
    }
}

/// Bounds on a value; each of them may be left open.
#[derive(Clone, Debug)]
pub struct RangeBounds<T> {
    pub gt: Option<T>,
    pub gte: Option<T>,
    pub lt: Option<T>,
    pub lte: Option<T>,
}

impl<T> Default for RangeBounds<T> {
    fn default() -> (bounds: Self)
        ensures
            bounds == (RangeBounds::<T> { gt: None, gte: None, lt: None, lte: None }),
    {
        RangeBounds { gt: None, gte: None, lt: None, lte: None }
    }
}

/// A set of generic request parameters that can be used on
/// list endpoints to filter their results by some timestamp.
#[derive(Clone, Debug)]
pub enum RangeQuery<T> {
    Exact(T),
    Bounds(RangeBounds<T>),
}

impl<T> RangeQuery<T> {
    /// Filter results to exactly match a given value
    pub fn eq(value: T) -> (query: RangeQuery<T>)
        ensures
            query == RangeQuery::Exact(value),
    {
        RangeQuery::Exact(value)
    }

    /// Filter results to be after a given value
    pub fn gt(value: T) -> (query: RangeQuery<T>)
        ensures
            query == RangeQuery::Bounds(
                RangeBounds { gt: Some(value), gte: None, lt: None, lte: None },
            ),
    {
        let mut bounds = RangeBounds::default();
        bounds.gt = Some(value);
        RangeQuery::Bounds(bounds)
    }

    /// Filter results to be after or equal to a given value
    pub fn gte(value: T) -> (query: RangeQuery<T>)
        ensures
            query == RangeQuery::Bounds(
                RangeBounds { gt: None, gte: Some(value), lt: None, lte: None },
            ),
    {
        let mut bounds = RangeBounds::default();
        bounds.gte = Some(value);
        RangeQuery::Bounds(bounds)
    }

    /// Filter results to be before to a given value
    pub fn lt(value: T) -> (query: RangeQuery<T>)
        ensures
            query == RangeQuery::Bounds(
                RangeBounds { gt: None, gte: None, lt: Some(value), lte: None },
            ),
    {
        let mut bounds = RangeBounds::default();
        bounds.lt = Some(value);
        RangeQuery::Bounds(bounds)
    }

    /// Filter results to be before or equal to a given value
    pub fn lte(value: T) -> (query: RangeQuery<T>)
        ensures
            query == RangeQuery::Bounds(
                RangeBounds { gt: None, gte: None, lt: None, lte: Some(value) },
            ),
    {
        let mut bounds = RangeBounds::default();
        bounds.lte = Some(value);
        RangeQuery::Bounds(bounds)
    }
}

/// An object that exists, by its id, or one to create along with the request.
#[derive(Clone, Debug)]
pub enum IdOrCreate<'a, T> {
    Id(&'a str),
    Create(&'a T),
}

/// The character that takes the place of an uppercase `c`: the first that its lowercase
/// form consists of, or `c` itself where that form is empty.
pub open spec fn lowered(c: char) -> char {
    if lowercase(c).len() > 0 {
        lowercase(c).first()
    } else {
        c
    }
}

/// Whether a new word begins with the uppercase character at position `i` of `camel`: it
/// does unless the name begins there or an uppercase character follows. After the last
/// character, `A` counts as following.
pub open spec fn begins_word(camel: Seq<char>, i: int) -> bool {
    i > 0 && !is_uppercase(
        if i + 1 < camel.len() {
            camel[i + 1]
        } else {
            'A'
        },
    )
}

/// What one character of a name in camel case becomes in snake case.
///
/// `upper` says whether the character `ch` is uppercase, `lower` what takes its place if it
/// is, and `breaks` whether a new word begins with it. A character that is not uppercase
/// stays; an uppercase one is replaced, after an underscore where a word begins.
pub open spec fn snake_piece(ch: char, upper: bool, lower: char, breaks: bool) -> Seq<char> {
    if !upper {
        seq![ch]
    } else if breaks {
        seq!['_', lower]
    } else {
        seq![lower]
    }
}

/// The snake case of the first `n` characters of `camel`, each seen in its place in the
/// whole name.
pub open spec fn snake_prefix(camel: Seq<char>, n: int) -> Seq<char>
    decreases n,
{
    if n <= 0 {
        Seq::empty()
    } else {
        let ch = camel[n - 1];
        snake_prefix(camel, n - 1) + snake_piece(
            ch,
            is_uppercase(ch),
            lowered(ch),
            begins_word(camel, n - 1),
        )
    }
}

/// The snake case of the name `camel`.
pub open spec fn snakecase(camel: Seq<char>) -> Seq<char> {
    snake_prefix(camel, camel.len() as int)
}

/// A name without uppercase characters is its own snake case.
pub proof fn lemma_snakecase_of_lowercase(camel: Seq<char>)
    requires
        forall|i: int| 0 <= i < camel.len() ==> !is_uppercase(#[trigger] camel[i]),
    ensures
        snakecase(camel) == camel,
{
    lemma_snake_prefix_of_lowercase(camel, camel.len() as int);
}

proof fn lemma_snake_prefix_of_lowercase(camel: Seq<char>, n: int)
    requires
        0 <= n <= camel.len(),
        forall|i: int| 0 <= i < camel.len() ==> !is_uppercase(#[trigger] camel[i]),
    ensures
        snake_prefix(camel, n) == camel.take(n),
    decreases n,
{
    if n > 0 {
        lemma_snake_prefix_of_lowercase(camel, n - 1);
    }
}

/// Appends to `snake` what one character of a name in camel case becomes in snake case.
pub fn push_snake(snake: &mut String, ch: char, upper: bool, lower: char, breaks: bool)
    ensures
        final(snake)@ == old(snake)@ + snake_piece(ch, upper, lower, breaks),
{
    if !upper {
        push_char(snake, ch);
    } else if breaks {
        push_char(snake, '_');
        push_char(snake, lower);
    } else {
        push_char(snake, lower);
    }
}

/// Converts a name from camel case to snake case.
///
/// Meant for names of ASCII letters, as identifiers in source code are.
pub fn to_snakecase(camel: &str) -> (snake: String)
    ensures
        snake@ == snakecase(camel@),
{
    let chars = chars_of(camel);
    let mut snake = String::new();
    let mut i: usize = 0;
    while i < chars.len()
        invariant
            i <= chars.len(),
            chars@ == camel@,
            snake@ == snake_prefix(chars@, i as int),
        decreases chars.len() - i,
    {
        let ch = chars[i];
        if char_is_uppercase(ch) {
            let next = if i + 1 < chars.len() {
                chars[i + 1]
            } else {
                'A'
            };
            let breaks = i > 0 && !char_is_uppercase(next);
            let lower = char_to_lowercase(ch);
            let first = if lower.len() > 0 {
                lower[0]
            } else {
                ch
            };
            push_snake(&mut snake, ch, true, first, breaks);
        } else {
            push_snake(&mut snake, ch, false, ch, false);
        }
        i += 1;
    }
    snake
}

} // verus!
