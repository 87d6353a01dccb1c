//! Clocks and dots as text.

use crate::actor::Actor;
use crate::dot::Dot;
use crate::model::{ascending, lists};
use crate::vclock::VClock;
use itertools::Itertools;
use std::fmt::Display;
use vstd::prelude::*;
use vstd::string::{to_string_from_display_ensures, StringExecFns};

verus! {

/// The texts of `parts` in a row, with `sep` between each two of them.
pub open spec fn joined(parts: Seq<Seq<char>>, sep: Seq<char>) -> Seq<char>
    decreases parts.len(),
{
    if parts.len() == 0 {
        Seq::empty()
    } else if parts.len() == 1 {
        parts[0]
    } else {
        joined(parts.drop_last(), sep) + sep + parts.last()
    }
}

/// What each string of `s` holds.
pub open spec fn texts(s: Seq<String>) -> Seq<Seq<char>> {
    s.map_values(|t: String| t@)
}

/// Whether `t` is the text of `d`: the actor as it displays itself, a
/// colon, and the counter as it displays itself.
pub open spec fn is_dot_text<A: Actor + Display>(d: Dot<A>, t: Seq<char>) -> bool {
    exists|a: String, c: String|
        #![trigger to_string_from_display_ensures::<A>(&d.actor, a), to_string_from_display_ensures::<u64>(&d.counter, c)]
        to_string_from_display_ensures::<A>(&d.actor, a) && to_string_from_display_ensures::<u64>(
            &d.counter,
            c,
        ) && t == a@ + ":"@ + c@
}

/// Whether `t` is the text of a clock whose dots are `dots`: the texts of
/// the dots with commas between them, in angle brackets.
pub open spec fn is_clock_text<A: Actor + Display>(dots: Seq<Dot<A>>, t: Seq<char>) -> bool {
    exists|labels: Seq<Seq<char>>|
        {
            &&& labels.len() == dots.len()
            &&& forall|i: int| 0 <= i < dots.len() ==> is_dot_text(dots[i], #[trigger] labels[i])
            &&& t == "<"@ + joined(labels, ","@) + ">"@
        }
}

/// `itertools::Itertools::join` over the strings of `parts`: the first
/// string, then for each further one `sep` and the string. It is called
/// with a separator of at most one character, which keeps the room that it
/// sets aside for the separators within range.
#[verifier::external_body]
fn join_with(parts: &Vec<String>, sep: &str) -> (r: String)
    requires
        sep@.len() <= 1,
    ensures
        r@ == joined(texts(parts@), sep@),
{
    parts.iter().join(sep)
}

impl<A: Actor + Display> Dot<A> {
    /// The dot as text: actor, colon, counter.
    pub fn to_text(&self) -> (r: String)
        ensures
            is_dot_text(*self, r@),
    {
        let a = self.actor.to_string();
        let c = self.counter.to_string();
        let ghost a0 = a;
        let mut t = a;
        t.append(":");
        t.append(c.as_str());
        proof {
            assert(to_string_from_display_ensures::<A>(&self.actor, a0)
                && to_string_from_display_ensures::<u64>(&self.counter, c));
        }
        t
    }
}

impl<A: Actor + Display> VClock<A> {
    /// The clock as text: the texts of its dots in the order of the actors,
    /// with commas between them, in angle brackets.
    pub fn to_text(&self) -> (r: String)
        ensures
            exists|dots: Seq<Dot<A>>|
                #![trigger lists(dots, self@)]
                lists(dots, self@) && ascending(dots) && is_clock_text(dots, r@),
    {
        let dots = self.iter();
        let mut parts: Vec<String> = Vec::new();
        let mut i: usize = 0;
        while i < dots.len()
            invariant
                i <= dots.len(),
                parts@.len() == i,
                forall|k: int| 0 <= k < i ==> is_dot_text(dots@[k], #[trigger] parts@[k]@),
            decreases dots.len() - i,
        {
            parts.push(dots[i].to_text());
            i = i + 1;
        }
        proof {
            reveal_strlit(",");
        }
        let inner = join_with(&parts, ",");
        let mut t = String::from_str("<");
        t.append(inner.as_str());
        t.append(">");
        proof {
            let labels = texts(parts@);
            assert(labels.len() == dots@.len());
            assert forall|k: int| 0 <= k < dots@.len() implies is_dot_text(
                dots@[k],
                #[trigger] labels[k],
            ) by {
                assert(labels[k] == parts@[k]@);
            }
            assert(t@ == "<"@ + joined(labels, ","@) + ">"@);
            assert(is_clock_text(dots@, t@));
        }
        t
    }
}

} // verus!
