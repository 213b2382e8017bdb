//! What holds of NDEF parsing over all records and all tag data.

use vstd::prelude::*;
use vstd::utf8::{decode_utf8_encode_utf8, encode_utf8, valid_utf8};

use super::ndef::{
    declared_id_length, declared_payload_length, has_id_length, id_start, is_chunked,
    is_short_record, law_progress_in_stream, length_end, parse_ndef_text_record, payload_end,
    payload_start, type_name_format, type_start, utf8_fault, NdefError, NdefMessageParser,
    NdefTextRecord, TlvState,
};

verus! {

/// A record put together from its flags, type, ID and payload: the flag of
/// value 16 selects a payload length of one byte instead of four, and the flag
/// of value 8 announces an ID.
pub open spec fn record_of(flags: u8, kind: Seq<u8>, id: Seq<u8>, payload: Seq<u8>) -> Seq<u8> {
    let length = payload.len();
    seq![flags, kind.len() as u8] + (if flags / 16 % 2 == 1 {
        seq![length as u8]
    } else {
        seq![
            (length / 0x100_0000) as u8,
            (length / 0x1_0000 % 0x100) as u8,
            (length / 0x100 % 0x100) as u8,
            (length % 0x100) as u8,
        ]
    }) + (if flags / 8 % 2 == 1 {
        seq![id.len() as u8]
    } else {
        Seq::empty()
    }) + kind + id + payload
}

/// Whether a record can be put together from these parts, in one chunk.
pub open spec fn makes_a_record(
    flags: u8,
    kind: Seq<u8>,
    id: Seq<u8>,
    payload: Seq<u8>,
) -> bool {
    &&& flags / 32 % 2 == 0
    &&& kind.len() < 0x100
    &&& id.len() < 0x100
    &&& flags / 8 % 2 == 0 ==> id.len() == 0
    &&& payload.len() < if flags / 16 % 2 == 1 {
        0x100nat
    } else {
        0x1_0000_0000
    }
}

/// What the bits of a flags byte say, by its value.
proof fn lemma_flags(flags: u8)
    ensures
        is_chunked(flags) <==> flags / 32 % 2 == 1,
        is_short_record(flags) <==> flags / 16 % 2 == 1,
        has_id_length(flags) <==> flags / 8 % 2 == 1,
        type_name_format(flags) == flags % 8,
{
    assert(flags & 0b0010_0000 != 0 <==> flags / 32 % 2 == 1) by (bit_vector);
    assert(flags & 0b0001_0000 != 0 <==> flags / 16 % 2 == 1) by (bit_vector);
    assert(flags & 0b0000_1000 != 0 <==> flags / 8 % 2 == 1) by (bit_vector);
    assert(flags & 0b0000_0111 == flags % 8) by (bit_vector);
}

/// How many bytes of a record come before its type.
pub open spec fn header_length(flags: u8) -> int {
    2 + (if flags / 16 % 2 == 1 {
        1int
    } else {
        4
    }) + (if flags / 8 % 2 == 1 {
        1int
    } else {
        0
    })
}

/// Where the parts of a record lie that was put together, with something
/// behind it.
proof fn lemma_parts(flags: u8, kind: Seq<u8>, id: Seq<u8>, payload: Seq<u8>, rest: Seq<u8>)
    requires
        makes_a_record(flags, kind, id, payload),
    ensures
        ({
            let record = record_of(flags, kind, id, payload);
            let data = record + rest;
            let start = header_length(flags);
            &&& record.len() == start + kind.len() + id.len() + payload.len()
            &&& data[0] == flags
            &&& data[1] == kind.len()
            &&& length_end(data) == 2 + if flags / 16 % 2 == 1 {
                1int
            } else {
                4
            }
            &&& type_start(data) == start
            &&& id_start(data) == start + kind.len()
            &&& payload_start(data) == start + kind.len() + id.len()
            &&& payload_end(data) == record.len()
            &&& data.subrange(start, start + kind.len()) == kind
            &&& data.subrange(start + kind.len() + id.len(), record.len() as int) == payload
        }),
{
    lemma_flags(flags);
    let record = record_of(flags, kind, id, payload);
    let data = record + rest;
    let start = header_length(flags);
    let length = payload.len();
    assert(record[0] == flags && record[1] == kind.len() as u8);
    if flags / 16 % 2 == 1 {
        assert(data[2] == length as u8);
    } else {
        assert(data[2] == (length / 0x100_0000) as u8);
        assert(data[3] == (length / 0x1_0000 % 0x100) as u8);
        assert(data[4] == (length / 0x100 % 0x100) as u8);
        assert(data[5] == (length % 0x100) as u8);
    }
    assert(declared_payload_length(data) == length);
    if flags / 8 % 2 == 1 {
        assert(data[length_end(data)] == id.len() as u8);
    }
    assert(declared_id_length(data) == id.len());
    assert(data.subrange(start, start + kind.len()) =~= kind);
    assert(data.subrange(start + kind.len() + id.len(), record.len() as int) =~= payload);
}

/// A record that is not cut off is read whatever follows it: a record of
/// another type name format, or of another type than the letter T, is refused
/// as such, and a text record gives exactly the payload it was put together
/// from.
pub proof fn law_records_are_read(
    flags: u8,
    kind: Seq<u8>,
    id: Seq<u8>,
    payload: Seq<u8>,
    data: &[u8],
    read: Result<NdefTextRecord, NdefError>,
)
    requires
        makes_a_record(flags, kind, id, payload),
        record_of(flags, kind, id, payload).is_prefix_of(data@),
        call_ensures(parse_ndef_text_record, (data,), read),
    ensures
        flags % 8 != 1 ==> (read matches Err(error) && error is NotWellKnown),
        flags % 8 == 1 && kind != seq![0x54u8] ==> (read matches Err(error)
            && error is NotTextRecord),
        flags % 8 == 1 && kind == seq![0x54u8] ==> (read matches Ok(record) && record@ == payload),
{
    let record = record_of(flags, kind, id, payload);
    let rest = data@.skip(record.len() as int);
    assert(data@ =~= record + rest);
    lemma_flags(flags);
    lemma_parts(flags, kind, id, payload, rest);
}

/// A record that is cut off is refused by the part that the cut falls in.
pub proof fn law_cut_records_are_refused(
    flags: u8,
    kind: Seq<u8>,
    id: Seq<u8>,
    payload: Seq<u8>,
    data: &[u8],
    read: Result<NdefTextRecord, NdefError>,
)
    requires
        makes_a_record(flags, kind, id, payload),
        data@.is_prefix_of(record_of(flags, kind, id, payload)),
        data@.len() < record_of(flags, kind, id, payload).len(),
        call_ensures(parse_ndef_text_record, (data,), read),
    ensures
        ({
            let start = header_length(flags);
            let length_end = if flags / 16 % 2 == 1 {
                3int
            } else {
                6
            };
            let count = data@.len();
            &&& read matches Err(NdefError::Truncated(part))
            &&& part@ == if count < 1 {
                "flags"@
            } else if count < 2 {
                "type length"@
            } else if count < length_end {
                "payload length"@
            } else if count < start {
                "ID length"@
            } else if count < start + kind.len() {
                "type"@
            } else if count < start + kind.len() + id.len() {
                "ID"@
            } else {
                "payload"@
            }
        }),
{
    let record = record_of(flags, kind, id, payload);
    let none = Seq::<u8>::empty();
    assert(record + none =~= record);
    lemma_flags(flags);
    lemma_parts(flags, kind, id, payload, none);
    let count = data@.len() as int;
    assert(forall|i: int| 0 <= i < count ==> data@[i] == record[i]);
    if count > 0 {
        assert(data@[0] == flags);
    }
    if count > 1 {
        assert(data@[1] == record[1]);
        assert(length_end(data@) == length_end(record));
        if count >= length_end(record) {
            assert(data@[2] == record[2]);
            if flags / 16 % 2 == 0 {
                assert(data@[3] == record[3] && data@[4] == record[4] && data@[5] == record[5]);
            }
            assert(declared_payload_length(data@) == declared_payload_length(record));
            if count >= type_start(record) {
                assert(declared_id_length(data@) == declared_id_length(record));
            }
        }
    }
}

/// A chunk of a record is refused as one, however little of it is there.
pub proof fn law_chunks_are_refused(data: &[u8], read: Result<NdefTextRecord, NdefError>)
    requires
        data@.len() > 0,
        call_ensures(parse_ndef_text_record, (data,), read),
    ensures
        data@[0] / 32 % 2 == 1 <==> (read matches Err(error) && error is Chunked),
{
    lemma_flags(data@[0]);
}

/// A record's text is what follows its language code, whose length is the
/// remainder of the first byte by 64; it is refused if the payload ends within
/// the code or what follows is no UTF-8, and for no other reason. An empty
/// payload is an empty text.
pub proof fn law_text_follows_the_language(
    record: &NdefTextRecord,
    text: Result<String, NdefError>,
)
    requires
        call_ensures(NdefTextRecord::text, (record,), text),
    ensures
        record@.len() == 0 ==> (text matches Ok(chars) && chars@.len() == 0),
        record@.len() > 0 ==> {
            let start = 1 + record@[0] % 64;
            &&& (record@.len() < start <==> (text matches Err(NdefError::Truncated(_))))
            &&& (text matches Err(NdefError::Truncated(part)) ==> part@ == "text payload"@)
            &&& (text matches Ok(chars) ==> encode_utf8(chars@) == record@.skip(start))
            &&& record@.len() >= start && text is Err ==> !valid_utf8(record@.skip(start)) && text
                == Err::<String, NdefError>(
                NdefError::InvalidUtf8(utf8_fault(record@.skip(start))),
            )
        },
{
    if record@.len() > 0 {
        let status = record@[0];
        assert(status & 0b0011_1111 == status % 64) by (bit_vector);
        let bytes = record@.skip(1 + status % 64);
        if valid_utf8(bytes) {
            decode_utf8_encode_utf8(bytes);
        }
    }
}

/// Every error has its description.
pub proof fn law_errors_are_described(error: &NdefError, text: String)
    requires
        call_ensures(NdefError::message, (error,), text),
    ensures
        *error matches NdefError::Truncated(part) ==> text@ == "record is truncated: "@ + part@
            + " missing"@,
        *error is Chunked ==> text@ == "chunked records are not supported"@,
        *error is NotWellKnown ==> text@ == "not a well-known payload type"@,
        *error is NotTextRecord ==> text@ == "not a text record"@,
        *error is InvalidUtf8 ==> text@ == "text payload is not valid UTF-8"@,
{
}

/// A parser is the state it is in: it starts afresh, takes in what it is fed,
/// and tells how far it is.
pub proof fn law_parser_tells_its_state()
    ensures
        forall|parser: NdefMessageParser| #[trigger]
            call_ensures(NdefMessageParser::new, (), parser) ==> parser@ == TlvState::start(),
        forall|parser: NdefMessageParser| #[trigger]
            call_ensures(<NdefMessageParser as Default>::default, (), parser) ==> parser@
                == TlvState::start(),
        forall|parser: &mut NdefMessageParser, chunk: &[u8]| #[trigger]
            call_ensures(NdefMessageParser::add_data, (parser, chunk), ()) ==> final(parser)@
                == parser@.after(chunk@),
        forall|parser: &NdefMessageParser, data: &[u8]| #[trigger]
            call_ensures(NdefMessageParser::data, (parser,), data) ==> data@ == parser@.data,
{
}

/// What a parser tells of a stream of which it has seen so many bytes: it has
/// started once it has seen the `0x03` that announces the message, it is done
/// once it has seen all of the message, and it holds what it has seen of it.
pub proof fn law_parser_follows_the_stream(
    prefix: Seq<u8>,
    message: Seq<u8>,
    long: bool,
    rest: Seq<u8>,
    count: int,
    parser: &NdefMessageParser,
    started: bool,
    done: bool,
    data: &[u8],
)
    requires
        !prefix.contains(0x03u8),
        message.len() <= if long {
            0xffffnat
        } else {
            0xfe
        },
        ({
            let header = if long {
                seq![0x03u8, 0xff, (message.len() / 0x100) as u8, (message.len() % 0x100) as u8]
            } else {
                seq![0x03u8, message.len() as u8]
            };
            let stream = prefix + header + message + rest;
            &&& 0 <= count <= stream.len()
            &&& parser@ == TlvState::start().after(stream.take(count))
        }),
        call_ensures(NdefMessageParser::has_started, (parser,), started),
        call_ensures(NdefMessageParser::is_done, (parser,), done),
        call_ensures(NdefMessageParser::data, (parser,), data),
    ensures
        ({
            let seen = count - prefix.len() - if long {
                4int
            } else {
                2
            };
            &&& started <==> count > prefix.len()
            &&& done <==> seen >= message.len()
            &&& seen <= 0 ==> data@.len() == 0
            &&& 0 < seen <= message.len() ==> data@ == message.take(seen)
            &&& seen >= message.len() ==> data@ == message
        }),
{
    law_progress_in_stream(prefix, message, long, rest, count);
    assert(message.take(message.len() as int) =~= message);
}

} // verus!
