pub mod autobahn;
pub mod dwd;
pub mod iss;
pub mod opensky;
pub mod ships;
pub mod vbb;

use vstd::prelude::*;

use crate::components::{SourceStyle, SourceTag};

verus! {

/// A position update from any data source.
///
/// `V` is the type of the measured quantities (coordinates, bearing in degrees,
/// speed in km/h); the library moves them around without computing with them.
pub struct ActorUpdate<V> {
    /// Unique ID within the source
    pub id: String,
    pub label: String,
    pub lat: V,
    pub lon: V,
    /// Bearing in degrees (0 = north, clockwise)
    pub bearing: Option<V>,
    /// Speed in km/h
    pub speed: Option<V>,
    pub style: SourceStyle,
    /// Tag to identify the source for upsert matching
    pub source_tag: SourceTag,
}

/// What an [`ActorUpdate`] says, with its texts as character sequences.
pub struct UpdateView<V> {
    pub id: Seq<char>,
    pub label: Seq<char>,
    pub lat: V,
    pub lon: V,
    pub bearing: Option<V>,
    pub speed: Option<V>,
    pub style: SourceStyle,
    pub source_tag: SourceTag,
}

impl<V> View for ActorUpdate<V> {
    type V = UpdateView<V>;

    open spec fn view(&self) -> UpdateView<V> {
        UpdateView {
            id: self.id@,
            label: self.label@,
            lat: self.lat,
            lon: self.lon,
            bearing: self.bearing,
            speed: self.speed,
            style: self.style,
            source_tag: self.source_tag,
        }
    }
}

/// The views of a sequence of updates.
pub open spec fn updates_view<V>(us: Seq<ActorUpdate<V>>) -> Seq<UpdateView<V>> {
    us.map_values(|u: ActorUpdate<V>| u@)
}

/// The view of an optional update.
pub open spec fn opt_update_view<V>(u: Option<ActorUpdate<V>>) -> Option<UpdateView<V>> {
    match u {
        Some(u) => Some(u@),
        None => None,
    }
}

/// The view of an optional text.
pub open spec fn opt_text(o: Option<String>) -> Option<Seq<char>> {
    match o {
        Some(s) => Some(s@),
        None => None,
    }
}

/// A text, or a default where there is none.
pub open spec fn text_or(o: Option<Seq<char>>, default: Seq<char>) -> Seq<char> {
    match o {
        Some(s) => s,
        None => default,
    }
}

/// The results of `f` on the items of `s`, in order, where `f` gives one.
pub open spec fn filter_map<A, B>(s: Seq<A>, f: spec_fn(A) -> Option<B>) -> Seq<B>
    decreases s.len(),
{
    if s.len() == 0 {
        Seq::empty()
    } else {
        let rest = filter_map(s.drop_last(), f);
        match f(s.last()) {
            Some(b) => rest.push(b),
            None => rest,
        }
    }
}

/// One more item of `s` handled by `filter_map`.
pub proof fn lemma_filter_map_step<A, B>(s: Seq<A>, f: spec_fn(A) -> Option<B>, i: int)
    requires
        0 <= i < s.len(),
    ensures
        filter_map(s.take(i + 1), f) == match f(s[i]) {
            Some(b) => filter_map(s.take(i), f).push(b),
            None => filter_map(s.take(i), f),
        },
{
    assert(s.take(i + 1).drop_last() =~= s.take(i));
    assert(s.take(i + 1).last() == s[i]);
}

/// `filter_map` over a whole sequence, as its prefix of full length.
pub proof fn lemma_filter_map_full<A, B>(s: Seq<A>, f: spec_fn(A) -> Option<B>)
    ensures
        filter_map(s.take(s.len() as int), f) == filter_map(s, f),
{
    assert(s.take(s.len() as int) =~= s);
}

} // verus!
