//! What a consumer shows of a run: the events that came downstream, merged into
//! entries. Texts that follow one another become one entry; a function call is
//! an entry of its own; the response of the image function is shown as an image.

use vstd::prelude::*;
use vstd::string::StringExecFns;
use crate::composer::{primary_content, primary_of};
use crate::gemini::api::GENERATE_IMAGE;
use crate::proto::message::{
    FunctionCallModel, FunctionCallPb, GeminiResponsePb, PartModel, PartPb, Payload, ResponseModel,
};
use crate::text::str_eq;
use crate::transcript::{text_of, text_of_all, text_of_part, text_of_parts};
use crate::views::seq_view;

verus! {

/// The view of an entry.
#[verifier::ext_equal]
pub enum EntryModel {
    Text(Seq<char>),
    Image(Seq<char>),
    FunctionCall(FunctionCallModel),
}

/// One thing to show.
#[derive(Debug, PartialEq, Eq)]
pub enum Entry {
    /// What the model said.
    Text(String),
    /// The address of an image that the model had made.
    Image(String),
    /// A function that the model asked for.
    FunctionCall(FunctionCallPb),
}

impl View for Entry {
    type V = EntryModel;

    open spec fn view(&self) -> EntryModel {
        match *self {
            Entry::Text(text) => EntryModel::Text(text@),
            Entry::Image(address) => EntryModel::Image(address@),
            Entry::FunctionCall(call) => EntryModel::FunctionCall(call@),
        }
    }
}

/// The entries after a text: an empty text changes nothing, a text after a
/// text is added to it, and any other text is an entry of its own.
pub open spec fn with_text(entries: Seq<EntryModel>, text: Seq<char>) -> Seq<EntryModel> {
    if text.len() == 0 {
        entries
    } else if entries.len() > 0 && entries.last() is Text {
        entries.drop_last().push(EntryModel::Text(entries.last()->Text_0 + text))
    } else {
        entries.push(EntryModel::Text(text))
    }
}

/// The entries after a part, or nothing where the part carries nothing. The
/// response of a function other than the image function is not shown.
pub open spec fn absorbed(entries: Seq<EntryModel>, part: PartModel) -> Option<Seq<EntryModel>> {
    match part.payload() {
        Payload::Text(text) => Some(with_text(entries, text)),
        Payload::FunctionCall(call) => Some(entries.push(EntryModel::FunctionCall(call))),
        Payload::FunctionResponse(response) => Some(
            if response.name == GENERATE_IMAGE@ {
                entries.push(EntryModel::Image(response.response))
            } else {
                entries
            },
        ),
        Payload::Nothing => None,
    }
}

/// The entries after `parts`, taken in order, or nothing where one of them
/// carries nothing.
pub open spec fn absorbed_all(entries: Seq<EntryModel>, parts: Seq<PartModel>) -> Option<
    Seq<EntryModel>,
>
    decreases parts.len(),
{
    if parts.len() == 0 {
        Some(entries)
    } else {
        match absorbed_all(entries, parts.drop_last()) {
            Some(earlier) => absorbed(earlier, parts.last()),
            None => None,
        }
    }
}

/// The entries after an event: after the parts of its primary content, where it
/// has one.
pub open spec fn shown(entries: Seq<EntryModel>, event: ResponseModel) -> Option<Seq<EntryModel>> {
    match primary_content(event) {
        Some(content) => absorbed_all(entries, content.parts),
        None => Some(entries),
    }
}

/// The texts among `entries`, one after the other.
pub open spec fn text_shown(entries: Seq<EntryModel>) -> Seq<char>
    decreases entries.len(),
{
    if entries.len() == 0 {
        Seq::empty()
    } else {
        text_shown(entries.drop_last()) + match entries.last() {
            EntryModel::Text(text) => text,
            _ => Seq::empty(),
        }
    }
}

/// Whether the entries are merged: no text is empty, and no text follows a
/// text.
pub open spec fn is_merged(entries: Seq<EntryModel>) -> bool {
    &&& forall|i: int|
        0 <= i < entries.len() && (#[trigger] entries[i]) is Text ==> entries[i]->Text_0.len() > 0
    &&& forall|i: int|
        0 <= i < entries.len() - 1 && (#[trigger] entries[i]) is Text ==> !(entries[i + 1] is Text)
}

/// Whether every part carries something.
pub open spec fn all_carry(parts: Seq<PartModel>) -> bool {
    forall|p: int| 0 <= p < parts.len() ==> !((#[trigger] parts[p]).payload() is Nothing)
}

/// Parts are absorbed exactly when each of them carries something.
pub proof fn lemma_absorbed_all_when_all_carry(entries: Seq<EntryModel>, parts: Seq<PartModel>)
    ensures
        absorbed_all(entries, parts) is Some <==> all_carry(parts),
    decreases parts.len(),
{
    if parts.len() > 0 {
        lemma_absorbed_all_when_all_carry(entries, parts.drop_last());
        let earlier = parts.drop_last();
        if all_carry(parts) {
            assert forall|p: int| 0 <= p < earlier.len() implies !((#[trigger] earlier[p]).payload()
                is Nothing) by {
                assert(earlier[p] == parts[p]);
            }
            assert(!(parts[parts.len() - 1].payload() is Nothing));
        }
        if absorbed_all(entries, parts) is Some {
            assert forall|p: int| 0 <= p < parts.len() implies !((#[trigger] parts[p]).payload()
                is Nothing) by {
                if p < earlier.len() {
                    assert(earlier[p] == parts[p]);
                }
            }
        }
    }
}

/// Merging keeps the text and keeps the entries merged: after a part, the text
/// shown is the text shown before followed by the text of the part, and entries
/// that were merged still are.
pub proof fn lemma_absorbed_keeps_text(entries: Seq<EntryModel>, part: PartModel)
    requires
        absorbed(entries, part) is Some,
    ensures
        text_shown(absorbed(entries, part)->0) == text_shown(entries) + text_of_part(part),
        is_merged(entries) ==> is_merged(absorbed(entries, part)->0),
{
    let after = absorbed(entries, part)->0;
    let nothing = Seq::<char>::empty();
    assert(text_shown(entries) + nothing =~= text_shown(entries));
    match part.payload() {
        Payload::Text(text) => {
            if text.len() == 0 {
                assert(text =~= nothing);
            } else if entries.len() > 0 && entries.last() is Text {
                let before = entries.last()->Text_0;
                assert(after.drop_last() =~= entries.drop_last());
                assert(text_shown(entries.drop_last()) + (before + text) =~= (text_shown(
                    entries.drop_last(),
                ) + before) + text);
                if is_merged(entries) {
                    assert forall|i: int|
                        0 <= i < after.len() - 1 && (#[trigger] after[i]) is Text implies !(after[i
                        + 1] is Text) by {
                        assert(after[i] == entries[i]);
                        if i + 1 < after.len() - 1 {
                            assert(after[i + 1] == entries[i + 1]);
                        }
                    }
                    assert forall|i: int| 0 <= i < after.len() && (#[trigger] after[i]) is Text implies
                        after[i]->Text_0.len() > 0 by {
                        if i < after.len() - 1 {
                            assert(after[i] == entries[i]);
                        }
                    }
                }
            } else {
                assert(after.drop_last() =~= entries);
                if is_merged(entries) {
                    assert forall|i: int|
                        0 <= i < after.len() - 1 && (#[trigger] after[i]) is Text implies !(after[i
                        + 1] is Text) by {
                        assert(after[i] == entries[i]);
                        if i + 1 < entries.len() {
                            assert(after[i + 1] == entries[i + 1]);
                        }
                    }
                }
            }
        },
        Payload::FunctionCall(call) => {
            assert(after.drop_last() =~= entries);
            if is_merged(entries) {
                assert forall|i: int|
                    0 <= i < after.len() - 1 && (#[trigger] after[i]) is Text implies !(after[i
                    + 1] is Text) by {
                    assert(after[i] == entries[i]);
                    if i + 1 < entries.len() {
                        assert(after[i + 1] == entries[i + 1]);
                    }
                }
            }
        },
        Payload::FunctionResponse(response) => {
            if response.name == GENERATE_IMAGE@ {
                assert(after.drop_last() =~= entries);
                if is_merged(entries) {
                    assert forall|i: int|
                        0 <= i < after.len() - 1 && (#[trigger] after[i]) is Text implies !(after[i
                        + 1] is Text) by {
                        assert(after[i] == entries[i]);
                        if i + 1 < entries.len() {
                            assert(after[i + 1] == entries[i + 1]);
                        }
                    }
                }
            }
        },
        Payload::Nothing => {},
    }
}

/// Merging loses nothing that was said: after the parts of a content, the text
/// shown is the text shown before followed by the text of the parts, and entries
/// that were merged still are.
pub proof fn lemma_merging_keeps_text(entries: Seq<EntryModel>, parts: Seq<PartModel>)
    requires
        absorbed_all(entries, parts) is Some,
    ensures
        text_shown(absorbed_all(entries, parts)->0) == text_shown(entries) + text_of_parts(parts),
        is_merged(entries) ==> is_merged(absorbed_all(entries, parts)->0),
    decreases parts.len(),
{
    if parts.len() == 0 {
        assert(text_shown(entries) + text_of_parts(parts) =~= text_shown(entries));
    } else {
        let earlier = absorbed_all(entries, parts.drop_last())->0;
        lemma_merging_keeps_text(entries, parts.drop_last());
        lemma_absorbed_keeps_text(earlier, parts.last());
        assert((text_shown(entries) + text_of_parts(parts.drop_last())) + text_of_part(parts.last())
            =~= text_shown(entries) + text_of_parts(parts));
    }
}

/// The entries after `events`, taken in order, or nothing where one of them
/// cannot be shown.
pub open spec fn shown_all(entries: Seq<EntryModel>, events: Seq<ResponseModel>) -> Option<
    Seq<EntryModel>,
>
    decreases events.len(),
{
    if events.len() == 0 {
        Some(entries)
    } else {
        match shown_all(entries, events.drop_last()) {
            Some(earlier) => shown(earlier, events.last()),
            None => None,
        }
    }
}

/// What is shown of a run says what the run said: after any number of events,
/// the text shown is the text shown before followed by the text of the events,
/// and entries that were merged still are.
pub proof fn lemma_display_keeps_text(entries: Seq<EntryModel>, events: Seq<ResponseModel>)
    requires
        shown_all(entries, events) is Some,
    ensures
        text_shown(shown_all(entries, events)->0) == text_shown(entries) + text_of_all(events),
        is_merged(entries) ==> is_merged(shown_all(entries, events)->0),
    decreases events.len(),
{
    if events.len() == 0 {
        assert(text_shown(entries) + text_of_all(events) =~= text_shown(entries));
    } else {
        let earlier = shown_all(entries, events.drop_last())->0;
        lemma_display_keeps_text(entries, events.drop_last());
        match primary_content(events.last()) {
            Some(content) => {
                lemma_merging_keeps_text(earlier, content.parts);
            },
            None => {
                assert(text_shown(earlier) + Seq::<char>::empty() =~= text_shown(earlier));
            },
        }
        assert((text_shown(entries) + text_of_all(events.drop_last())) + text_of(events.last())
            =~= text_shown(entries) + text_of_all(events));
    }
}

/// Adds `text` to the entries: to the last of them where that is a text, and as
/// an entry of its own otherwise. An empty text changes nothing.
pub fn absorb_text(entries: &mut Vec<Entry>, text: &str)
    ensures
        seq_view(final(entries)@) == with_text(seq_view(old(entries)@), text@),
{
    if text.is_empty() {
        return;
    }
    match entries.pop() {
        Some(Entry::Text(earlier)) => {
            entries.push(Entry::Text(earlier.concat(text)));
        },
        Some(other) => {
            entries.push(other);
            entries.push(Entry::Text(text.to_string()));
        },
        None => {
            entries.push(Entry::Text(text.to_string()));
        },
    }
}

/// Adds what `part` carries to the entries. A part that carries nothing is
/// refused, and the entries stay as they were.
pub fn absorb(entries: &mut Vec<Entry>, part: &PartPb) -> (taken: bool)
    ensures
        match absorbed(seq_view(old(entries)@), part@) {
            Some(after) => taken && seq_view(final(entries)@) == after,
            None => !taken && seq_view(final(entries)@) == seq_view(old(entries)@),
        },
{
    match &part.text {
        Some(text) => {
            absorb_text(entries, text.as_str());
            true
        },
        None => match &part.function_call {
            Some(call) => {
                let added = Entry::FunctionCall(call.clone());
                entries.push(added);
                true
            },
            None => match &part.function_response {
                Some(response) => {
                    if str_eq(response.name.as_str(), GENERATE_IMAGE) {
                        let added = Entry::Image(response.response.clone());
                        entries.push(added);
                    }
                    true
                },
                None => false,
            },
        },
    }
}

/// Whether every part of the primary content of an event carries something.
pub open spec fn can_be_shown(event: ResponseModel) -> bool {
    match primary_content(event) {
        Some(content) => all_carry(content.parts),
        None => true,
    }
}

/// An event is shown exactly when every part of its primary content carries
/// something.
pub proof fn lemma_shown_when_all_carry(entries: Seq<EntryModel>, event: ResponseModel)
    ensures
        shown(entries, event) is Some <==> can_be_shown(event),
{
    if let Some(content) = primary_content(event) {
        lemma_absorbed_all_when_all_carry(entries, content.parts);
    }
}

/// Whether every part of the primary content of an event carries something.
pub fn can_show(event: &GeminiResponsePb) -> (ready: bool)
    ensures
        ready == can_be_shown(event@),
{
    match primary_of(event) {
        None => true,
        Some(content) => {
            let mut i: usize = 0;
            while i < content.parts.len()
                invariant
                    i <= content.parts@.len(),
                    content@.parts.len() == content.parts@.len(),
                    primary_content(event@) == Some(content@),
                    forall|p: int|
                        0 <= p < i ==> !((#[trigger] content@.parts[p]).payload() is Nothing),
                decreases content.parts@.len() - i,
            {
                let part = &content.parts[i];
                if part.text.is_none() && part.function_call.is_none()
                    && part.function_response.is_none() {
                    proof {
                        assert(content@.parts[i as int].payload() is Nothing);
                        assert(!all_carry(content@.parts));
                    }
                    return false;
                }
                i += 1;
            }
            true
        },
    }
}

/// Adds what an event carries to the entries. An event with a part that
/// carries nothing is refused, and the entries stay as they were.
pub fn show(entries: &mut Vec<Entry>, event: &GeminiResponsePb) -> (taken: bool)
    ensures
        match shown(seq_view(old(entries)@), event@) {
            Some(after) => taken && seq_view(final(entries)@) == after,
            None => !taken && seq_view(final(entries)@) == seq_view(old(entries)@),
        },
{
    let ghost before = seq_view(entries@);
    proof {
        lemma_shown_when_all_carry(before, event@);
    }
    if !can_show(event) {
        return false;
    }
    match primary_of(event) {
        None => {},
        Some(content) => {
            let mut i: usize = 0;
            while i < content.parts.len()
                invariant
                    i <= content.parts@.len(),
                    content@.parts.len() == content.parts@.len(),
                    all_carry(content@.parts),
                    absorbed_all(before, content@.parts.take(i as int)) == Some(seq_view(entries@)),
                decreases content.parts@.len() - i,
            {
                proof {
                    let parts = content@.parts;
                    assert(parts.take(i + 1).drop_last() =~= parts.take(i as int));
                    assert(parts.take(i + 1).last() == parts[i as int]);
                    assert(!(parts[i as int].payload() is Nothing));
                }
                absorb(entries, &content.parts[i]);
                i += 1;
            }
            proof {
                assert(content@.parts.take(i as int) =~= content@.parts);
            }
        },
    }
    true
}

/// One argument of a call as it is shown: its name, and its value in quotes.
pub open spec fn argument_text(key: Seq<char>, value: Seq<char>) -> Seq<char> {
    key + "=\""@ + value + "\""@
}

/// The arguments of a call as they are shown: one after the other, with a comma
/// between two of them.
pub open spec fn arguments_text(keys: Seq<Seq<char>>, values: Seq<Seq<char>>) -> Seq<char>
    decreases keys.len(),
{
    if keys.len() == 0 {
        Seq::empty()
    } else if keys.len() == 1 {
        argument_text(keys[0], values[0])
    } else {
        arguments_text(keys.drop_last(), values.drop_last()) + ", "@ + argument_text(
            keys.last(),
            values.last(),
        )
    }
}

/// A call as it is shown: the name of the function and, in brackets, its
/// arguments, all set as code.
pub open spec fn call_text(name: Seq<char>, keys: Seq<Seq<char>>, values: Seq<Seq<char>>) -> Seq<
    char,
> {
    "```"@ + name + "("@ + arguments_text(keys, values) + ")```"@
}

/// A call as it is shown, with its arguments in the order of their entries.
pub fn describe_call(call: &FunctionCallPb) -> (text: String)
    ensures
        text@ == call_text(call.name@, call.args.key_seq(), seq_view(call.args.value_seq())),
{
    let ghost keys = call.args.key_seq();
    let ghost values = seq_view(call.args.value_seq());
    let mut arguments = String::new();
    let count = call.args.len();
    let mut i: usize = 0;
    proof {
        call.args.lemma_lengths();
    }
    while i < count
        invariant
            i <= count,
            count == keys.len(),
            keys == call.args.key_seq(),
            values == seq_view(call.args.value_seq()),
            keys.len() == values.len(),
            arguments@ == arguments_text(keys.take(i as int), values.take(i as int)),
        decreases count - i,
    {
        proof {
            assert(keys.take(i + 1).drop_last() =~= keys.take(i as int));
            assert(values.take(i + 1).drop_last() =~= values.take(i as int));
        }
        if i > 0 {
            arguments.append(", ");
        }
        arguments.append(call.args.key(i).as_str());
        arguments.append("=\"");
        arguments.append(call.args.value(i).as_str());
        arguments.append("\"");
        proof {
            let shown = argument_text(keys[i as int], values[i as int]);
            let before = arguments_text(keys.take(i as int), values.take(i as int));
            if i == 0 {
                assert(before + keys[0] + "=\""@ + values[0] + "\""@ =~= shown);
            } else {
                assert(before + ", "@ + keys[i as int] + "=\""@ + values[i as int] + "\""@ =~= before
                    + ", "@ + shown);
            }
        }
        i += 1;
    }
    proof {
        assert(keys.take(i as int) =~= keys);
        assert(values.take(i as int) =~= values);
    }
    "```".to_string().concat(call.name.as_str()).concat("(").concat(arguments.as_str()).concat(
        ")```",
    )
}

} // verus!
