//! What holds of the machines taken together: whole streams, and the writer
//! against the reader.

use crate::auto::{bom_choice, AutoEndianReader, BomError};
use crate::event::{FailureKind, IoFailure, Step};
use crate::order::{bytes_of, lemma_word_of_bytes_of, word_of, ByteOrder};
use crate::read::{
    chars_step, line_step, lines_step, without_terminator, DecodeError, LineView, RawRead,
};
use crate::utf16::{
    is_high_surrogate, is_low_surrogate, is_surrogate, lemma_units_of_bmp_char,
    lemma_units_of_supplementary_char, lemma_utf16_of_first, units_of_char, utf16_of,
};
use vstd::prelude::*;

verus! {

/// The read outcomes of a stream that holds `units` in the byte order `order`,
/// when every read succeeds.
pub open spec fn wire_of<E>(order: ByteOrder, units: Seq<u16>) -> Seq<RawRead<E>> {
    Seq::new(units.len(), |i: int| Ok::<(u8, u8), IoFailure<E>>(bytes_of(order, units[i])))
}

/// What a scalar decoder yields, item by item, while the read outcomes
/// `events` are fed to it in turn, starting with `pending` held back.
pub open spec fn decoded<E>(order: ByteOrder, pending: Option<u16>, events: Seq<RawRead<E>>) -> Seq<
    Option<Result<char, DecodeError<E>>>,
>
    decreases events.len(),
{
    if events.len() == 0 {
        Seq::empty()
    } else {
        let (held, step) = chars_step(order, pending, events[0]);
        let rest = decoded(order, held, events.skip(1));
        match step {
            Step::Read => rest,
            Step::Yield(item) => seq![item] + rest,
        }
    }
}

/// The scalar values of `text`, each as the item that a decoder yields for it.
pub open spec fn items_of<E>(text: Seq<char>) -> Seq<Option<Result<char, DecodeError<E>>>> {
    Seq::new(text.len(), |i: int| Some(Ok::<char, DecodeError<E>>(text[i])))
}

/// The stream of a text that was written in some byte order decodes, in the
/// same byte order, to the scalar values of the text, whatever the text.
pub proof fn lemma_round_trip<E>(order: ByteOrder, text: Seq<char>)
    ensures
        decoded::<E>(order, None, wire_of(order, utf16_of(text))) == items_of::<E>(text),
    decreases text.len(),
{
    let events = wire_of::<E>(order, utf16_of(text));
    if text.len() == 0 {
        assert(decoded::<E>(order, None, events) =~= items_of::<E>(text));
    } else {
        let c = text[0];
        let tail = text.skip(1);
        lemma_utf16_of_first(text);
        lemma_round_trip::<E>(order, tail);
        let tail_events = wire_of::<E>(order, utf16_of(tail));
        assert(items_of::<E>(text) =~= seq![Some(Ok::<char, DecodeError<E>>(c))] + items_of::<E>(
            tail,
        ));
        if (c as u32) < 0x10000 {
            lemma_units_of_bmp_char(c);
            let unit = units_of_char(c)[0];
            lemma_word_of_bytes_of(order, unit);
            assert(events[0] == Ok::<(u8, u8), IoFailure<E>>(bytes_of(order, unit)));
            assert(events.skip(1) =~= tail_events);
            assert(chars_step(order, None, events[0]) == (
                None::<u16>,
                Step::Yield(Some(Ok::<char, DecodeError<E>>(c))),
            ));
        } else {
            lemma_units_of_supplementary_char(c);
            let high = units_of_char(c)[0];
            let low = units_of_char(c)[1];
            lemma_word_of_bytes_of(order, high);
            lemma_word_of_bytes_of(order, low);
            let after = events.skip(1);
            assert(events[0] == Ok::<(u8, u8), IoFailure<E>>(bytes_of(order, high)));
            assert(after[0] == Ok::<(u8, u8), IoFailure<E>>(bytes_of(order, low)));
            assert(after.skip(1) =~= tail_events);
            assert(chars_step(order, None, events[0]) == (
                Some(high),
                Step::<Option<Result<char, DecodeError<E>>>>::Read,
            ));
            assert(chars_step(order, Some(high), after[0]) == (
                None::<u16>,
                Step::Yield(Some(Ok::<char, DecodeError<E>>(c))),
            ));
            assert(decoded::<E>(order, Some(high), after) == seq![
                Some(Ok::<char, DecodeError<E>>(c)),
            ] + decoded::<E>(order, None, tail_events));
        }
    }
}

/// A stream that ends right after a surrogate ends cleanly: the decoder
/// yields the end of the stream and no error.
pub proof fn lemma_truncated_surrogate_ends_cleanly<E>(
    order: ByteOrder,
    unit: u16,
    end: IoFailure<E>,
)
    requires
        is_surrogate(unit),
        end.kind == FailureKind::EndOfStream,
    ensures
        decoded::<E>(order, None, seq![Ok(bytes_of(order, unit)), Err(end)]) == seq![
            None::<Result<char, DecodeError<E>>>,
        ],
{
    let events = seq![Ok::<(u8, u8), IoFailure<E>>(bytes_of(order, unit)), Err(end)];
    lemma_word_of_bytes_of(order, unit);
    let after = events.skip(1);
    assert(after[0] == Err::<(u8, u8), IoFailure<E>>(end));
    assert(after.skip(1) =~= Seq::<RawRead<E>>::empty());
    assert(decoded::<E>(order, None, after.skip(1)) =~= Seq::empty());
    assert(decoded::<E>(order, Some(unit), after) =~= seq![None::<Result<char, DecodeError<E>>>]);
}

/// A high surrogate followed by a unit that is no low surrogate decodes to
/// the error that names both units, and to nothing else.
pub proof fn lemma_invalid_pairing_is_reported<E>(order: ByteOrder, high: u16, second: u16)
    requires
        is_high_surrogate(high),
        !is_low_surrogate(second),
    ensures
        decoded::<E>(order, None, seq![Ok(bytes_of(order, high)), Ok(bytes_of(order, second))])
            == seq![Some(Err::<char, DecodeError<E>>(DecodeError::InvalidSurrogate(high, second)))],
{
    let events = seq![
        Ok::<(u8, u8), IoFailure<E>>(bytes_of(order, high)),
        Ok::<(u8, u8), IoFailure<E>>(bytes_of(order, second)),
    ];
    lemma_word_of_bytes_of(order, high);
    lemma_word_of_bytes_of(order, second);
    let after = events.skip(1);
    assert(after[0] == Ok::<(u8, u8), IoFailure<E>>(bytes_of(order, second)));
    assert(after.skip(1) =~= Seq::<RawRead<E>>::empty());
    assert(decoded::<E>(order, None, after.skip(1)) =~= Seq::empty());
    assert(decoded::<E>(order, Some(high), after) =~= seq![
        Some(Err::<char, DecodeError<E>>(DecodeError::InvalidSurrogate(high, second))),
    ]);
}

/// Interruptions change nothing: a stream decodes to the same items with an
/// interrupted read put in front of it.
pub proof fn lemma_interruption_is_invisible<E>(
    order: ByteOrder,
    pending: Option<u16>,
    interrupted: IoFailure<E>,
    events: Seq<RawRead<E>>,
)
    requires
        interrupted.kind == FailureKind::Interrupted,
    ensures
        decoded(order, pending, seq![Err(interrupted)] + events) == decoded(order, pending, events),
{
    let all = seq![Err::<(u8, u8), IoFailure<E>>(interrupted)] + events;
    assert(all.skip(1) =~= events);
}

/// A stream that starts with the byte-order mark as written in some byte
/// order is opened in that byte order.
pub proof fn lemma_bom_selects_its_order<R, E>(order: ByteOrder, inner: R)
    ensures
        bom_choice::<R, E>(inner, Ok(bytes_of(order, 0xFEFF))) matches Ok(reader) && reader.order()
            == order && reader.source() == inner,
{
}

/// A first code unit other than the two forms of the byte-order mark opens
/// no stream, and the error names the unit.
pub proof fn lemma_bom_rejects_other_units<R, E>(inner: R, first: u8, second: u8)
    requires
        !(first == 0xFF && second == 0xFE),
        !(first == 0xFE && second == 0xFF),
    ensures
        bom_choice::<R, E>(inner, Ok((first, second))) == Err::<AutoEndianReader<R>, BomError<E>>(
            BomError::InvalidByteOrderMark(word_of(ByteOrder::Little, first, second)),
        ),
{
}

/// What a line iterator yields, item by item, while the read outcomes
/// `events` are fed to it in turn, starting from `state`.
pub open spec fn lined<E>(order: ByteOrder, state: LineView, events: Seq<RawRead<E>>) -> Seq<
    Option<Result<Seq<char>, DecodeError<E>>>,
>
    decreases events.len(),
{
    if events.len() == 0 {
        Seq::empty()
    } else {
        let (next, step) = lines_step(order, state, events[0]);
        let rest = lined(order, next, events.skip(1));
        match step {
            Step::Read => rest,
            Step::Yield(item) => seq![item] + rest,
        }
    }
}

/// The stream of two sequences of code units joined is their streams joined.
pub proof fn lemma_wire_of_concat<E>(order: ByteOrder, a: Seq<u16>, b: Seq<u16>)
    ensures
        wire_of::<E>(order, a + b) == wire_of::<E>(order, a) + wire_of::<E>(order, b),
{
    assert(wire_of::<E>(order, a + b) =~= wire_of::<E>(order, a) + wire_of::<E>(order, b));
}

/// Text without a line feed yields nothing: it is gathered, and the iterator
/// goes on with what follows.
pub proof fn lemma_text_is_gathered<E>(
    order: ByteOrder,
    gathered: Seq<char>,
    text: Seq<char>,
    then: Seq<RawRead<E>>,
)
    requires
        !text.contains('\n'),
    ensures
        lined(
            order,
            LineView { pending: None, line: gathered },
            wire_of(order, utf16_of(text)) + then,
        ) == lined(order, LineView { pending: None, line: gathered + text }, then),
    decreases text.len(),
{
    let state = LineView { pending: None, line: gathered };
    let events = wire_of::<E>(order, utf16_of(text)) + then;
    if text.len() == 0 {
        assert(events =~= then);
        assert(gathered + text =~= gathered);
    } else {
        let c = text[0];
        let tail = text.skip(1);
        assert(text.contains(c));
        assert forall|i: int| 0 <= i < tail.len() implies tail[i] != '\n' by {
            assert(text.contains(text[i + 1]));
        }
        lemma_utf16_of_first(text);
        lemma_wire_of_concat::<E>(order, units_of_char(c), utf16_of(tail));
        let after = wire_of::<E>(order, utf16_of(tail)) + then;
        let grown = LineView { pending: None, line: gathered.push(c) };
        lemma_text_is_gathered::<E>(order, gathered.push(c), tail, then);
        assert(gathered.push(c) + tail =~= gathered + text);
        if (c as u32) < 0x10000 {
            lemma_units_of_bmp_char(c);
            let unit = units_of_char(c)[0];
            lemma_word_of_bytes_of(order, unit);
            assert(events[0] == Ok::<(u8, u8), IoFailure<E>>(bytes_of(order, unit)));
            assert(events.skip(1) =~= after);
            assert(lines_step(order, state, events[0]) == (
                grown,
                Step::<Option<Result<Seq<char>, DecodeError<E>>>>::Read,
            ));
        } else {
            lemma_units_of_supplementary_char(c);
            let high = units_of_char(c)[0];
            let low = units_of_char(c)[1];
            lemma_word_of_bytes_of(order, high);
            lemma_word_of_bytes_of(order, low);
            let second = events.skip(1);
            let waiting = LineView { pending: Some(high), line: gathered };
            assert(events[0] == Ok::<(u8, u8), IoFailure<E>>(bytes_of(order, high)));
            assert(second[0] == Ok::<(u8, u8), IoFailure<E>>(bytes_of(order, low)));
            assert(second.skip(1) =~= after);
            assert(lines_step(order, state, events[0]) == (
                waiting,
                Step::<Option<Result<Seq<char>, DecodeError<E>>>>::Read,
            ));
            assert(lines_step(order, waiting, second[0]) == (
                grown,
                Step::<Option<Result<Seq<char>, DecodeError<E>>>>::Read,
            ));
            assert(lined(order, waiting, second) == lined(order, grown, after));
        }
    }
}

/// A line that was written with its line feed is read back without its
/// terminator, whatever follows it in the stream; the iterator then starts
/// afresh on what follows.
pub proof fn lemma_terminated_line_is_yielded<E>(
    order: ByteOrder,
    line: Seq<char>,
    then: Seq<RawRead<E>>,
)
    requires
        !line.contains('\n'),
    ensures
        lined(order, LineView::fresh(), wire_of(order, utf16_of(line.push('\n'))) + then) == seq![
            Some(Ok::<Seq<char>, DecodeError<E>>(without_terminator(line.push('\n')))),
        ] + lined(order, LineView::fresh(), then),
{
    let feed = Ok::<(u8, u8), IoFailure<E>>(bytes_of(order, 0x000A));
    let tail = seq![feed] + then;
    let whole = line.push('\n');
    assert(whole.drop_last() =~= line);
    lemma_units_of_bmp_char('\n');
    assert(utf16_of(whole) == utf16_of(line) + seq![0x000Au16]);
    lemma_wire_of_concat::<E>(order, utf16_of(line), seq![0x000Au16]);
    assert(wire_of::<E>(order, seq![0x000Au16]) =~= seq![feed]);
    assert(wire_of::<E>(order, utf16_of(whole)) + then =~= wire_of::<E>(order, utf16_of(line))
        + tail);
    lemma_text_is_gathered::<E>(order, Seq::empty(), line, tail);
    assert(Seq::<char>::empty() + line =~= line);
    let state = LineView { pending: None, line };
    lemma_word_of_bytes_of(order, 0x000A);
    assert(tail.skip(1) =~= then);
    assert(line_step(order, state, tail[0]) == (
        LineView::fresh(),
        Step::Yield((whole, Ok::<(), DecodeError<E>>(()))),
    ));
}

/// What is left unterminated when the stream ends is read back as the last
/// line, as it is; where nothing is left, the lines are over.
pub proof fn lemma_last_line_is_yielded<E>(order: ByteOrder, line: Seq<char>, end: IoFailure<E>)
    requires
        !line.contains('\n'),
        end.kind == FailureKind::EndOfStream,
    ensures
        lined(order, LineView::fresh(), wire_of(order, utf16_of(line)) + seq![Err(end)]) == seq![
            if line.len() == 0 {
                None
            } else {
                Some(Ok::<Seq<char>, DecodeError<E>>(line))
            },
        ],
{
    let tail = seq![Err::<(u8, u8), IoFailure<E>>(end)];
    lemma_text_is_gathered::<E>(order, Seq::empty(), line, tail);
    assert(Seq::<char>::empty() + line =~= line);
    let state = LineView { pending: None, line };
    assert(tail.skip(1) =~= Seq::<RawRead<E>>::empty());
    assert(lined(order, LineView::fresh(), tail.skip(1)) =~= Seq::empty());
    assert(line_step(order, state, tail[0]) == (
        LineView::fresh(),
        Step::Yield((line, Ok::<(), DecodeError<E>>(()))),
    ));
    if line.len() > 0 {
        assert(line.contains(line.last()));
        assert(without_terminator(line) == line);
    }
    assert(lined(order, state, tail) =~= seq![
        if line.len() == 0 {
            None
        } else {
            Some(Ok::<Seq<char>, DecodeError<E>>(line))
        },
    ]);
}

/// A line feed ends a line with or without a carriage return before it: both
/// terminators are cut off, and nothing else.
pub proof fn lemma_both_terminators_are_cut(line: Seq<char>)
    ensures
        without_terminator(line.push('\r').push('\n')) == line,
        line.len() == 0 || line.last() != '\r' ==> without_terminator(line.push('\n')) == line,
{
    assert(line.push('\r').push('\n').drop_last() =~= line.push('\r'));
    assert(line.push('\r').drop_last() =~= line);
    assert(line.push('\n').drop_last() =~= line);
}

} // verus!
