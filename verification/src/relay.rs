//! The attachment relay: formats the file attachments of a fetched
//! message as a human-readable listing, one line per attachment.
//!
//! The event loop fetches the reacted-to message over REST, reads its
//! attachments into plain [`AttachmentInfo`] values, and asks
//! [`relay_reply`] for the reply text.  A message without attachments
//! gets no reply at all.

use vstd::prelude::*;
use vstd::string::StringExecFns;

verus! {

/// One file attachment of a fetched message, as the relay reads it.
#[derive(Debug, PartialEq, Eq)]
pub struct AttachmentInfo {
    /// The attachment's file name.
    pub filename: String,
    /// The attachment's download address.
    pub url: String,
}

/// Specification-level image of an attachment.
pub struct AttachmentModel {
    pub filename: Seq<char>,
    pub url: Seq<char>,
}

impl View for AttachmentInfo {
    type V = AttachmentModel;

    open spec fn view(&self) -> AttachmentModel {
        AttachmentModel { filename: self.filename@, url: self.url@ }
    }
}

/// The images of a sequence of attachments.
pub open spec fn models_of(atts: Seq<AttachmentInfo>) -> Seq<AttachmentModel> {
    atts.map_values(|a: AttachmentInfo| a@)
}

/// The listing line of one attachment: its name, then its address.
pub open spec fn line_spec(a: AttachmentModel) -> Seq<char> {
    a.filename + ": "@ + a.url + "\n"@
}

/// The listing of a sequence of attachments: their lines in order.
pub open spec fn listing_spec(atts: Seq<AttachmentModel>) -> Seq<char>
    decreases atts.len(),
{
    if atts.len() == 0 {
        Seq::empty()
    } else {
        line_spec(atts[0]) + listing_spec(atts.drop_first())
    }
}

/// Appending one attachment to a listing appends its line.
pub proof fn lemma_listing_push(atts: Seq<AttachmentModel>, a: AttachmentModel)
    ensures
        listing_spec(atts.push(a)) == listing_spec(atts) + line_spec(a),
    decreases atts.len(),
{
    if atts.len() == 0 {
        assert(atts.push(a).drop_first() =~= Seq::<AttachmentModel>::empty());
        assert(atts.push(a)[0] == a);
        assert(listing_spec(atts.push(a)) == line_spec(a) + listing_spec(
            Seq::<AttachmentModel>::empty(),
        ));
        assert(listing_spec(atts.push(a)) =~= line_spec(a));
        assert(listing_spec(atts) + line_spec(a) =~= line_spec(a));
    } else {
        assert(atts.push(a).drop_first() =~= atts.drop_first().push(a));
        assert(atts.push(a)[0] == atts[0]);
        lemma_listing_push(atts.drop_first(), a);
        assert(line_spec(atts[0]) + (listing_spec(atts.drop_first()) + line_spec(a)) =~= (
        line_spec(atts[0]) + listing_spec(atts.drop_first())) + line_spec(a));
    }
}

/// The heading above the listing.
pub open spec fn listing_header() -> Seq<char> {
    "Attachments:\n"@
}

/// The relay's reply for a fetched message: no reply at all exactly when
/// the message has no attachments, else the heading followed by one line
/// per attachment, in the message's order.
pub fn relay_reply(atts: &Vec<AttachmentInfo>) -> (r: Option<String>)
    ensures
        (r is None) <==> atts@.len() == 0,
        r matches Some(s) ==> s@ == listing_header() + listing_spec(models_of(atts@)),
{
    if atts.len() == 0 {
        return Option::None;
    }
    let mut s = String::from_str("Attachments:\n");
    let mut i: usize = 0;
    while i < atts.len()
        invariant
            0 <= i <= atts@.len(),
            s@ == listing_header() + listing_spec(models_of(atts@).take(i as int)),
        decreases atts@.len() - i,
    {
        s.append(atts[i].filename.as_str());
        s.append(": ");
        s.append(atts[i].url.as_str());
        s.append("\n");
        proof {
            lemma_listing_push(models_of(atts@).take(i as int), models_of(atts@)[i as int]);
            assert(models_of(atts@).take(i as int + 1) =~= models_of(atts@).take(i as int).push(
                models_of(atts@)[i as int],
            ));
            assert(s@ =~= listing_header() + listing_spec(models_of(atts@).take(i as int + 1)));
        }
        i = i + 1;
    }
    proof {
        assert(models_of(atts@).take(atts@.len() as int) =~= models_of(atts@));
    }
    Option::Some(s)
}

} // verus!
