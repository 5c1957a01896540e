//! The text of a run: what the model said, put together from the events that
//! went downstream.

use vstd::prelude::*;
use vstd::string::StringExecFns;
use crate::composer::{primary_content, primary_of};
use crate::proto::message::{GeminiResponsePb, PartModel, ResponseModel};
use crate::views::seq_view;

verus! {

/// The text that a part adds: its text, if it has one.
pub open spec fn text_of_part(part: PartModel) -> Seq<char> {
    match part.text {
        Some(text) => text,
        None => Seq::empty(),
    }
}

/// The texts of `parts`, one after the other.
pub open spec fn text_of_parts(parts: Seq<PartModel>) -> Seq<char>
    decreases parts.len(),
{
    if parts.len() == 0 {
        Seq::empty()
    } else {
        text_of_parts(parts.drop_last()) + text_of_part(parts.last())
    }
}

/// The text of an event: the texts of the parts of its primary content, one
/// after the other.
pub open spec fn text_of(event: ResponseModel) -> Seq<char> {
    match primary_content(event) {
        Some(content) => text_of_parts(content.parts),
        None => Seq::empty(),
    }
}

/// The texts of `events`, one after the other.
pub open spec fn text_of_all(events: Seq<ResponseModel>) -> Seq<char>
    decreases events.len(),
{
    if events.len() == 0 {
        Seq::empty()
    } else {
        text_of_all(events.drop_last()) + text_of(events.last())
    }
}

/// Adds the text of `event` to the end of `text`.
pub fn append_text(text: &mut String, event: &GeminiResponsePb)
    ensures
        final(text)@ == old(text)@ + text_of(event@),
{
    let ghost before = text@;
    match primary_of(event) {
        None => {
        },
        Some(content) => {
            let mut i: usize = 0;
            while i < content.parts.len()
                invariant
                    i <= content.parts@.len(),
                    content@.parts.len() == content.parts@.len(),
                    text@ == before + text_of_parts(content@.parts.take(i as int)),
                decreases content.parts@.len() - i,
            {
                proof {
                    let parts = content@.parts;
                    assert(parts.take(i + 1).drop_last() =~= parts.take(i as int));
                    assert(parts.take(i + 1).last() == parts[i as int]);
                    assert(before + (text_of_parts(parts.take(i as int)) + text_of_part(
                        parts[i as int],
                    )) =~= (before + text_of_parts(parts.take(i as int))) + text_of_part(
                        parts[i as int],
                    ));
                    assert(text@ + Seq::<char>::empty() =~= text@);
                }
                match &content.parts[i].text {
                    Some(said) => {
                        text.append(said.as_str());
                    },
                    None => {},
                }
                i += 1;
            }
            proof {
                assert(content@.parts.take(i as int) =~= content@.parts);
            }
        },
    }
}

/// The text of a run, from the events that went downstream.
pub fn terminal_text(events: &Vec<GeminiResponsePb>) -> (text: String)
    ensures
        text@ == text_of_all(seq_view(events@)),
{
    let mut text = String::new();
    let mut i: usize = 0;
    while i < events.len()
        invariant
            i <= events@.len(),
            text@ == text_of_all(seq_view(events@).take(i as int)),
        decreases events@.len() - i,
    {
        proof {
            let all = seq_view(events@);
            assert(all.take(i + 1).drop_last() =~= all.take(i as int));
            assert(all.take(i + 1).last() == events@[i as int]@);
        }
        append_text(&mut text, &events[i]);
        i += 1;
    }
    proof {
        assert(seq_view(events@).take(i as int) =~= seq_view(events@));
    }
    text
}

} // verus!
