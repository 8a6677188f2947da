//! The optional fields a create or update request may carry, extracted from
//! the inbound JSON body. Each present field is kept as the raw JSON text of
//! its value, so that forwarding it to the backend reproduces it exactly and
//! absent fields are never sent.

use vstd::prelude::*;

use crate::text::{opt_str_view, str_views};

verus! {

/// The recognized fields of a movie record, each present field held as the
/// raw JSON text of its value.
pub struct MovieFields {
    pub title: Option<String>,
    pub tagline: Option<String>,
    pub popularity: Option<String>,
    pub release_date: Option<String>,
}

/// Mathematical image of `MovieFields`.
pub struct MovieFieldsView {
    pub title: Option<Seq<char>>,
    pub tagline: Option<Seq<char>>,
    pub popularity: Option<Seq<char>>,
    pub release_date: Option<Seq<char>>,
}

impl View for MovieFields {
    type V = MovieFieldsView;

    open spec fn view(&self) -> MovieFieldsView {
        MovieFieldsView {
            title: opt_str_view(self.title),
            tagline: opt_str_view(self.tagline),
            popularity: opt_str_view(self.popularity),
            release_date: opt_str_view(self.release_date),
        }
    }
}

impl MovieFieldsView {
    /// No recognized field is present.
    pub open spec fn is_empty(self) -> bool {
        self.title is None && self.tagline is None && self.popularity is None
            && self.release_date is None
    }
}

impl MovieFields {
    /// Runtime test matching `MovieFieldsView::is_empty`.
    pub fn check_empty(&self) -> (r: bool)
        ensures
            r == self@.is_empty(),
    {
        self.title.is_none() && self.tagline.is_none() && self.popularity.is_none()
            && self.release_date.is_none()
    }
}

pub open spec fn opt_fields_view(r: Option<MovieFields>) -> Option<MovieFieldsView> {
    match r {
        None => None,
        Some(f) => Some(f@),
    }
}

/// The fields read out of a JSON body: the result of parsing the bytes as a
/// JSON object and taking each recognized member's value as raw JSON text;
/// no result when the bytes are not a JSON object.
pub uninterp spec fn parsed_fields_of(body: Seq<u8>) -> Option<MovieFieldsView>;

/// Relies on `serde_json::from_slice` and `serde_json::Value`: parses the
/// body as JSON, rejects anything but an object, and re-serializes each
/// recognized member's value with `Value`'s display form.
#[verifier::external_body]
pub fn parse_body_fields(body: &[u8]) -> (r: Option<MovieFields>)
    ensures
        opt_fields_view(r) == parsed_fields_of(body@),
{
    let v: serde_json::Value = match serde_json::from_slice(body) {
        Ok(x) => x,
        Err(_) => return None,
    };
    if !v.is_object() {
        return None;
    }
    Some(MovieFields {
        title: v.get("title").map(|x| x.to_string()),
        tagline: v.get("tagline").map(|x| x.to_string()),
        popularity: v.get("popularity").map(|x| x.to_string()),
        release_date: v.get("release_date").map(|x| x.to_string()),
    })
}

/// The members a serialized body carries, in fixed order, each as
/// `"<name>":<raw value>`.
pub open spec fn body_pieces(f: MovieFieldsView) -> Seq<Seq<char>> {
    opt_piece("\"title\":"@, f.title) + opt_piece("\"tagline\":"@, f.tagline) + opt_piece(
        "\"popularity\":"@,
        f.popularity,
    ) + opt_piece("\"release_date\":"@, f.release_date)
}

pub open spec fn opt_piece(prefix: Seq<char>, v: Option<Seq<char>>) -> Seq<Seq<char>> {
    match v {
        None => Seq::empty(),
        Some(raw) => seq![prefix + raw],
    }
}

/// Pieces joined with a separator.
pub open spec fn joined(pieces: Seq<Seq<char>>, sep: Seq<char>) -> Seq<char>
    decreases pieces.len(),
{
    if pieces.len() == 0 {
        Seq::empty()
    } else if pieces.len() == 1 {
        pieces[0]
    } else {
        pieces[0] + sep + joined(pieces.drop_first(), sep)
    }
}

/// The JSON object sent to the backend for a create or update: exactly the
/// present fields, in fixed order.
pub open spec fn fields_json(f: MovieFieldsView) -> Seq<char> {
    seq!['{'] + joined(body_pieces(f), seq![',']) + seq!['}']
}

fn push_piece(pieces: &mut Vec<String>, prefix: &str, v: &Option<String>)
    ensures
        str_views(final(pieces)@) == str_views(old(pieces)@) + opt_piece(prefix@, opt_str_view(*v)),
{
    match v {
        None => {
            proof {
                assert(str_views(pieces@) =~= str_views(pieces@) + opt_piece(
                    prefix@,
                    opt_str_view(*v),
                ));
            }
        },
        Some(raw) => {
            let mut piece = String::from_str(prefix);
            piece.append(raw.as_str());
            pieces.push(piece);
            proof {
                assert(str_views(pieces@) =~= str_views(old(pieces)@) + opt_piece(
                    prefix@,
                    opt_str_view(*v),
                ));
            }
        },
    }
}

fn join_from(pieces: &Vec<String>, i: usize, sep: &str) -> (r: String)
    requires
        i <= pieces@.len(),
    ensures
        r@ == joined(str_views(pieces@).skip(i as int), sep@),
    decreases pieces@.len() - i,
{
    proof {
        assert(str_views(pieces@).len() == pieces@.len());
    }
    if i == pieces.len() {
        proof {
            assert(str_views(pieces@).skip(i as int) =~= Seq::<Seq<char>>::empty());
        }
        String::new()
    } else if i + 1 == pieces.len() {
        let r = pieces[i].clone();
        proof {
            assert(str_views(pieces@).skip(i as int) =~= seq![pieces@[i as int]@]);
        }
        r
    } else {
        let mut r = pieces[i].clone();
        r.append(sep);
        let rest = join_from(pieces, i + 1, sep);
        r.append(rest.as_str());
        proof {
            let tail = str_views(pieces@).skip(i as int);
            assert(tail[0] == pieces@[i as int]@);
            assert(tail.drop_first() =~= str_views(pieces@).skip(i as int + 1));
        }
        r
    }
}

/// Serializes the present fields as the JSON object forwarded to the
/// backend.
pub fn serialize_fields(f: &MovieFields) -> (r: String)
    ensures
        r@ == fields_json(f@),
{
    let mut pieces: Vec<String> = Vec::new();
    push_piece(&mut pieces, "\"title\":", &f.title);
    push_piece(&mut pieces, "\"tagline\":", &f.tagline);
    push_piece(&mut pieces, "\"popularity\":", &f.popularity);
    push_piece(&mut pieces, "\"release_date\":", &f.release_date);
    proof {
        assert(str_views(pieces@) =~= body_pieces(f@));
    }
    let mut r = String::from_str("{");
    let joined_text = join_from(&pieces, 0, ",");
    r.append(joined_text.as_str());
    r.append("}");
    proof {
        reveal_strlit("{");
        reveal_strlit("}");
        reveal_strlit(",");
        assert("{"@ =~= seq!['{']);
        assert("}"@ =~= seq!['}']);
        assert(","@ =~= seq![',']);
        assert(str_views(pieces@).skip(0) =~= str_views(pieces@));
        assert(joined_text@ == joined(body_pieces(f@), seq![',']));
        assert(r@ =~= fields_json(f@));
    }
    r
}

} // verus!
