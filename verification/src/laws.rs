//! Laws of the transfer engine, stated over the transition model and
//! proved once and for all: payload faithfulness of uploads and
//! downloads, the round trip they compose to, the surfacing of negative
//! replies, and the exactness of SIZE.

use vstd::prelude::*;
use crate::reply::parse_reply_sp;
use crate::passive::{is_passive_code, passive_target_sp};
use crate::session::{
    done_step, login_start_sp, start_data_sp, step_sp, with_phase, ActionV, ConnectionType,
    ConnectionV, EventV, JobV, OutcomeV, PhaseV,
};
use crate::transfer::{command_line_sp, listing_sp, size_sp};

verus! {

/// A run of the engine: the final state and the actions produced by
/// feeding the events in order.
pub open spec fn run_sp(c: ConnectionV, evs: Seq<EventV>) -> (ConnectionV, Seq<ActionV>)
    decreases evs.len(),
{
    if evs.len() == 0 {
        (c, Seq::empty())
    } else {
        let first = step_sp(c, evs[0]);
        let rest = run_sp(first.0, evs.drop_first());
        (rest.0, seq![first.1] + rest.1)
    }
}

/// A transition never touches the host or the mode: only the phase of
/// the outstanding operation moves.
pub proof fn lemma_step_preserves(c: ConnectionV, ev: EventV)
    ensures
        step_sp(c, ev).0.host == c.host,
        step_sp(c, ev).0.mode == c.mode,
{
}

/// A run never touches the host or the mode.
pub proof fn lemma_run_preserves(c: ConnectionV, evs: Seq<EventV>)
    ensures
        run_sp(c, evs).0.host == c.host,
        run_sp(c, evs).0.mode == c.mode,
    decreases evs.len(),
{
    if evs.len() > 0 {
        lemma_step_preserves(c, evs[0]);
        lemma_run_preserves(step_sp(c, evs[0]).0, evs.drop_first());
    }
}

/// Upload faithfulness: whatever positive reply acknowledges the
/// transfer command, the engine hands the data socket exactly the bytes
/// the upload was started with; the payload is never rewritten.
pub proof fn lemma_upload_writes_payload(
    c: ConnectionV,
    filename: Seq<char>,
    data: Seq<u8>,
    line: Seq<char>,
)
    requires
        c.phase == (PhaseV::TransferSent { job: JobV::Upload(filename, data) }),
        parse_reply_sp(line) is Ok,
    ensures
        step_sp(c, EventV::Line(line)) == (
            with_phase(c, PhaseV::Writing),
            ActionV::WriteData(data),
        ),
{
}

/// Download faithfulness: the bytes a download completes with are
/// exactly the bytes drained from the data socket, unchanged.
pub proof fn lemma_download_returns_drained(
    c: ConnectionV,
    data: Seq<u8>,
    line: Seq<char>,
)
    requires
        c.phase is DrainingBytes,
        parse_reply_sp(line) is Ok,
    ensures
        ({
            let mid = step_sp(c, EventV::Data(data)).0;
            step_sp(mid, EventV::Line(line)) == done_step(
                mid,
                OutcomeV::Bytes(data, parse_reply_sp(line)->Ok_0),
            )
        }),
{
}

/// Negative replies surface as failures: a one-shot command answered
/// with a classified negative reply fails carrying exactly that reply.
pub proof fn lemma_negative_reply_fails(c: ConnectionV, line: Seq<char>)
    requires
        c.phase is SimpleSent,
        parse_reply_sp(line) matches Err(e) && e is NegativeReturnCode,
    ensures
        step_sp(c, EventV::Line(line)) == (
            with_phase(c, PhaseV::Idle),
            ActionV::Fail(parse_reply_sp(line)->Err_0),
        ),
{
}

/// SIZE exactness: a SIZE query completes with exactly the number the
/// positive reply's text spells in decimal.
pub proof fn lemma_size_exact(c: ConnectionV, line: Seq<char>)
    requires
        c.phase is SizeSent,
        parse_reply_sp(line) matches Ok(r) && size_sp(r.text) is Ok,
    ensures
        step_sp(c, EventV::Line(line)) == done_step(
            c,
            OutcomeV::Size(size_sp(parse_reply_sp(line)->Ok_0.text)->Ok_0),
        ),
{
}

/// The complete passive download conversation, general in every reply
/// and payload: started idle, given a 227 reply resolving to some
/// target, a positive transfer acknowledgement, the drained bytes, and
/// a positive final status, the engine opens exactly one data
/// connection, reads the data before the final status, and completes
/// with exactly the drained bytes.
pub proof fn lemma_download_script(
    c: ConnectionV,
    filename: Seq<char>,
    pasv_line: Seq<char>,
    ack_line: Seq<char>,
    data: Seq<u8>,
    fin_line: Seq<char>,
)
    requires
        c.phase is Idle,
        c.mode == ConnectionType::Passive,
        parse_reply_sp(pasv_line) matches Ok(r) && is_passive_code(r.code)
            && passive_target_sp(r.text) is Ok,
        parse_reply_sp(ack_line) is Ok,
        parse_reply_sp(fin_line) is Ok,
    ensures
        ({
            let started = start_data_sp(c, JobV::Download(filename));
            let evs = seq![
                EventV::Line(pasv_line),
                EventV::Opened,
                EventV::Line(ack_line),
                EventV::Data(data),
                EventV::Line(fin_line),
            ];
            let run = run_sp(started.0, evs);
            let target = passive_target_sp(parse_reply_sp(pasv_line)->Ok_0.text)->Ok_0;
            &&& started.1 == ActionV::Exchange(command_line_sp("PASV"@, Seq::empty()))
            &&& run.1 == seq![
                ActionV::OpenData(target.0, target.1),
                ActionV::Exchange(command_line_sp("RETR"@, seq![filename])),
                ActionV::ReadData,
                ActionV::ReadReply,
                ActionV::Done(OutcomeV::Bytes(data, parse_reply_sp(fin_line)->Ok_0)),
            ]
            &&& run.0.phase is Idle
        }),
{
    reveal_with_fuel(run_sp, 7);
    let started = start_data_sp(c, JobV::Download(filename));
    let evs = seq![
        EventV::Line(pasv_line),
        EventV::Opened,
        EventV::Line(ack_line),
        EventV::Data(data),
        EventV::Line(fin_line),
    ];
    let target = passive_target_sp(parse_reply_sp(pasv_line)->Ok_0.text)->Ok_0;
    let s0 = started.0;
    let st1 = step_sp(s0, EventV::Line(pasv_line));
    assert(st1.1 == ActionV::OpenData(target.0, target.1));
    let st2 = step_sp(st1.0, EventV::Opened);
    assert(st2.1 == ActionV::Exchange(command_line_sp("RETR"@, seq![filename])));
    let st3 = step_sp(st2.0, EventV::Line(ack_line));
    assert(st3.1 == ActionV::ReadData);
    let st4 = step_sp(st3.0, EventV::Data(data));
    assert(st4.1 == ActionV::ReadReply);
    let st5 = step_sp(st4.0, EventV::Line(fin_line));
    assert(st5.1 == ActionV::Done(OutcomeV::Bytes(data, parse_reply_sp(fin_line)->Ok_0)));
    assert(st5.0.phase is Idle);
    let evs1 = evs.drop_first();
    let evs2 = evs1.drop_first();
    let evs3 = evs2.drop_first();
    let evs4 = evs3.drop_first();
    let evs5 = evs4.drop_first();
    assert(evs1 =~= seq![
        EventV::Opened,
        EventV::Line(ack_line),
        EventV::Data(data),
        EventV::Line(fin_line),
    ]);
    assert(evs2 =~= seq![EventV::Line(ack_line), EventV::Data(data), EventV::Line(fin_line)]);
    assert(evs3 =~= seq![EventV::Data(data), EventV::Line(fin_line)]);
    assert(evs4 =~= seq![EventV::Line(fin_line)]);
    assert(evs5 =~= Seq::<EventV>::empty());
    assert(run_sp(st5.0, evs5) == (st5.0, Seq::<ActionV>::empty()));
    assert(run_sp(st4.0, evs4) == (st5.0, seq![st5.1] + Seq::<ActionV>::empty()));
    assert(run_sp(st3.0, evs3) == (st5.0, seq![st4.1] + (seq![st5.1] + Seq::<ActionV>::empty())));
    assert(run_sp(st2.0, evs2) == (st5.0, seq![st3.1] + (seq![st4.1] + (seq![st5.1]
        + Seq::<ActionV>::empty()))));
    assert(run_sp(st1.0, evs1) == (st5.0, seq![st2.1] + (seq![st3.1] + (seq![st4.1] + (seq![st5.1]
        + Seq::<ActionV>::empty())))));
    assert(run_sp(s0, evs) == (st5.0, seq![st1.1] + (seq![st2.1] + (seq![st3.1] + (seq![st4.1]
        + (seq![st5.1] + Seq::<ActionV>::empty()))))));
    assert(seq![st1.1] + (seq![st2.1] + (seq![st3.1] + (seq![st4.1] + (seq![st5.1]
        + Seq::<ActionV>::empty())))) =~= seq![st1.1, st2.1, st3.1, st4.1, st5.1]);
}

/// The complete passive listing conversation, general in every reply
/// and in the drained text: the engine opens exactly one data
/// connection, reads the data before the final status, and completes
/// with exactly the cleaned entries of the drained text — so a freshly
/// created directory, whose data stream is empty, lists no entries.
pub proof fn lemma_list_script(
    c: ConnectionV,
    pasv_line: Seq<char>,
    ack_line: Seq<char>,
    text: Seq<char>,
    fin_line: Seq<char>,
)
    requires
        c.phase is Idle,
        c.mode == ConnectionType::Passive,
        parse_reply_sp(pasv_line) matches Ok(r) && is_passive_code(r.code)
            && passive_target_sp(r.text) is Ok,
        parse_reply_sp(ack_line) is Ok,
        parse_reply_sp(fin_line) is Ok,
    ensures
        ({
            let started = start_data_sp(c, JobV::List);
            let evs = seq![
                EventV::Line(pasv_line),
                EventV::Opened,
                EventV::Line(ack_line),
                EventV::Text(text),
                EventV::Line(fin_line),
            ];
            let run = run_sp(started.0, evs);
            let target = passive_target_sp(parse_reply_sp(pasv_line)->Ok_0.text)->Ok_0;
            &&& started.1 == ActionV::Exchange(command_line_sp("PASV"@, Seq::empty()))
            &&& run.1 == seq![
                ActionV::OpenData(target.0, target.1),
                ActionV::Exchange(command_line_sp("NLST"@, Seq::empty())),
                ActionV::ReadText,
                ActionV::ReadReply,
                ActionV::Done(OutcomeV::Names(listing_sp(text), parse_reply_sp(fin_line)->Ok_0)),
            ]
            &&& run.0.phase is Idle
            &&& text.len() == 0 ==> run.1[4] == ActionV::Done(OutcomeV::Names(
                Seq::<Seq<char>>::empty(),
                parse_reply_sp(fin_line)->Ok_0,
            ))
        }),
{
    reveal_with_fuel(run_sp, 7);
    let started = start_data_sp(c, JobV::List);
    let evs = seq![
        EventV::Line(pasv_line),
        EventV::Opened,
        EventV::Line(ack_line),
        EventV::Text(text),
        EventV::Line(fin_line),
    ];
    let target = passive_target_sp(parse_reply_sp(pasv_line)->Ok_0.text)->Ok_0;
    let s0 = started.0;
    let st1 = step_sp(s0, EventV::Line(pasv_line));
    assert(st1.1 == ActionV::OpenData(target.0, target.1));
    let st2 = step_sp(st1.0, EventV::Opened);
    assert(st2.1 == ActionV::Exchange(command_line_sp("NLST"@, Seq::empty())));
    let st3 = step_sp(st2.0, EventV::Line(ack_line));
    assert(st3.1 == ActionV::ReadText);
    let st4 = step_sp(st3.0, EventV::Text(text));
    assert(st4.1 == ActionV::ReadReply);
    let st5 = step_sp(st4.0, EventV::Line(fin_line));
    assert(st5.1 == ActionV::Done(OutcomeV::Names(listing_sp(text), parse_reply_sp(fin_line)->Ok_0)));
    assert(st5.0.phase is Idle);
    let evs1 = evs.drop_first();
    let evs2 = evs1.drop_first();
    let evs3 = evs2.drop_first();
    let evs4 = evs3.drop_first();
    let evs5 = evs4.drop_first();
    assert(evs1 =~= seq![
        EventV::Opened,
        EventV::Line(ack_line),
        EventV::Text(text),
        EventV::Line(fin_line),
    ]);
    assert(evs2 =~= seq![EventV::Line(ack_line), EventV::Text(text), EventV::Line(fin_line)]);
    assert(evs3 =~= seq![EventV::Text(text), EventV::Line(fin_line)]);
    assert(evs4 =~= seq![EventV::Line(fin_line)]);
    assert(evs5 =~= Seq::<EventV>::empty());
    assert(run_sp(st5.0, evs5) == (st5.0, Seq::<ActionV>::empty()));
    assert(run_sp(st4.0, evs4) == (st5.0, seq![st5.1] + Seq::<ActionV>::empty()));
    assert(run_sp(st3.0, evs3) == (st5.0, seq![st4.1] + (seq![st5.1] + Seq::<ActionV>::empty())));
    assert(run_sp(st2.0, evs2) == (st5.0, seq![st3.1] + (seq![st4.1] + (seq![st5.1]
        + Seq::<ActionV>::empty()))));
    assert(run_sp(st1.0, evs1) == (st5.0, seq![st2.1] + (seq![st3.1] + (seq![st4.1] + (seq![st5.1]
        + Seq::<ActionV>::empty())))));
    assert(run_sp(s0, evs) == (st5.0, seq![st1.1] + (seq![st2.1] + (seq![st3.1] + (seq![st4.1]
        + (seq![st5.1] + Seq::<ActionV>::empty()))))));
    assert(seq![st1.1] + (seq![st2.1] + (seq![st3.1] + (seq![st4.1] + (seq![st5.1]
        + Seq::<ActionV>::empty())))) =~= seq![st1.1, st2.1, st3.1, st4.1, st5.1]);
    if text.len() == 0 {
        crate::transfer::lemma_empty_listing();
        assert(text =~= Seq::<char>::empty());
    }
}

/// The complete passive upload conversation, general in every reply and
/// payload: started idle, the engine opens exactly one data connection,
/// writes exactly the given bytes to it, and completes with the final
/// status reply.
pub proof fn lemma_upload_script(
    c: ConnectionV,
    filename: Seq<char>,
    data: Seq<u8>,
    pasv_line: Seq<char>,
    ack_line: Seq<char>,
    fin_line: Seq<char>,
)
    requires
        c.phase is Idle,
        c.mode == ConnectionType::Passive,
        parse_reply_sp(pasv_line) matches Ok(r) && is_passive_code(r.code)
            && passive_target_sp(r.text) is Ok,
        parse_reply_sp(ack_line) is Ok,
        parse_reply_sp(fin_line) is Ok,
    ensures
        ({
            let started = start_data_sp(c, JobV::Upload(filename, data));
            let evs = seq![
                EventV::Line(pasv_line),
                EventV::Opened,
                EventV::Line(ack_line),
                EventV::Written,
                EventV::Line(fin_line),
            ];
            let run = run_sp(started.0, evs);
            let target = passive_target_sp(parse_reply_sp(pasv_line)->Ok_0.text)->Ok_0;
            &&& started.1 == ActionV::Exchange(command_line_sp("PASV"@, Seq::empty()))
            &&& run.1 == seq![
                ActionV::OpenData(target.0, target.1),
                ActionV::Exchange(command_line_sp("STOR"@, seq![filename])),
                ActionV::WriteData(data),
                ActionV::ReadReply,
                ActionV::Done(OutcomeV::Reply(parse_reply_sp(fin_line)->Ok_0)),
            ]
            &&& run.0.phase is Idle
        }),
{
    reveal_with_fuel(run_sp, 7);
    let started = start_data_sp(c, JobV::Upload(filename, data));
    let evs = seq![
        EventV::Line(pasv_line),
        EventV::Opened,
        EventV::Line(ack_line),
        EventV::Written,
        EventV::Line(fin_line),
    ];
    let target = passive_target_sp(parse_reply_sp(pasv_line)->Ok_0.text)->Ok_0;
    let s0 = started.0;
    let st1 = step_sp(s0, EventV::Line(pasv_line));
    assert(st1.1 == ActionV::OpenData(target.0, target.1));
    let st2 = step_sp(st1.0, EventV::Opened);
    assert(st2.1 == ActionV::Exchange(command_line_sp("STOR"@, seq![filename])));
    let st3 = step_sp(st2.0, EventV::Line(ack_line));
    assert(st3.1 == ActionV::WriteData(data));
    let st4 = step_sp(st3.0, EventV::Written);
    assert(st4.1 == ActionV::ReadReply);
    let st5 = step_sp(st4.0, EventV::Line(fin_line));
    assert(st5.1 == ActionV::Done(OutcomeV::Reply(parse_reply_sp(fin_line)->Ok_0)));
    assert(st5.0.phase is Idle);
    let evs1 = evs.drop_first();
    let evs2 = evs1.drop_first();
    let evs3 = evs2.drop_first();
    let evs4 = evs3.drop_first();
    let evs5 = evs4.drop_first();
    assert(evs1 =~= seq![
        EventV::Opened,
        EventV::Line(ack_line),
        EventV::Written,
        EventV::Line(fin_line),
    ]);
    assert(evs2 =~= seq![EventV::Line(ack_line), EventV::Written, EventV::Line(fin_line)]);
    assert(evs3 =~= seq![EventV::Written, EventV::Line(fin_line)]);
    assert(evs4 =~= seq![EventV::Line(fin_line)]);
    assert(evs5 =~= Seq::<EventV>::empty());
    assert(run_sp(st5.0, evs5) == (st5.0, Seq::<ActionV>::empty()));
    assert(run_sp(st4.0, evs4) == (st5.0, seq![st5.1] + Seq::<ActionV>::empty()));
    assert(run_sp(st3.0, evs3) == (st5.0, seq![st4.1] + (seq![st5.1] + Seq::<ActionV>::empty())));
    assert(run_sp(st2.0, evs2) == (st5.0, seq![st3.1] + (seq![st4.1] + (seq![st5.1]
        + Seq::<ActionV>::empty()))));
    assert(run_sp(st1.0, evs1) == (st5.0, seq![st2.1] + (seq![st3.1] + (seq![st4.1] + (seq![st5.1]
        + Seq::<ActionV>::empty())))));
    assert(run_sp(s0, evs) == (st5.0, seq![st1.1] + (seq![st2.1] + (seq![st3.1] + (seq![st4.1]
        + (seq![st5.1] + Seq::<ActionV>::empty()))))));
    assert(seq![st1.1] + (seq![st2.1] + (seq![st3.1] + (seq![st4.1] + (seq![st5.1]
        + Seq::<ActionV>::empty())))) =~= seq![st1.1, st2.1, st3.1, st4.1, st5.1]);
}

/// Round trip: on one connection, an upload of `data` followed by a
/// download of the stored file yields bytes identical to `data`,
/// provided the server honours the exchange — it acknowledges each step
/// positively and the download's data socket serves back exactly what
/// the upload's data socket was handed. The engine writes exactly
/// `data` on the way up and returns the drained bytes unchanged on the
/// way down.
pub proof fn lemma_upload_download_round_trip(
    c: ConnectionV,
    filename: Seq<char>,
    data: Seq<u8>,
    up_pasv: Seq<char>,
    up_ack: Seq<char>,
    up_fin: Seq<char>,
    down_pasv: Seq<char>,
    down_ack: Seq<char>,
    down_fin: Seq<char>,
)
    requires
        c.phase is Idle,
        c.mode == ConnectionType::Passive,
        parse_reply_sp(up_pasv) matches Ok(r) && is_passive_code(r.code)
            && passive_target_sp(r.text) is Ok,
        parse_reply_sp(up_ack) is Ok,
        parse_reply_sp(up_fin) is Ok,
        parse_reply_sp(down_pasv) matches Ok(r) && is_passive_code(r.code)
            && passive_target_sp(r.text) is Ok,
        parse_reply_sp(down_ack) is Ok,
        parse_reply_sp(down_fin) is Ok,
    ensures
        ({
            let up = run_sp(
                start_data_sp(c, JobV::Upload(filename, data)).0,
                seq![
                    EventV::Line(up_pasv),
                    EventV::Opened,
                    EventV::Line(up_ack),
                    EventV::Written,
                    EventV::Line(up_fin),
                ],
            );
            let down = run_sp(
                start_data_sp(up.0, JobV::Download(filename)).0,
                seq![
                    EventV::Line(down_pasv),
                    EventV::Opened,
                    EventV::Line(down_ack),
                    EventV::Data(data),
                    EventV::Line(down_fin),
                ],
            );
            &&& up.1[2] == ActionV::WriteData(data)
            &&& up.0.phase is Idle
            &&& down.1[4] == ActionV::Done(OutcomeV::Bytes(data, parse_reply_sp(down_fin)->Ok_0))
            &&& down.0.phase is Idle
        }),
{
    lemma_upload_script(c, filename, data, up_pasv, up_ack, up_fin);
    let up = run_sp(
        start_data_sp(c, JobV::Upload(filename, data)).0,
        seq![
            EventV::Line(up_pasv),
            EventV::Opened,
            EventV::Line(up_ack),
            EventV::Written,
            EventV::Line(up_fin),
        ],
    );
    lemma_step_preserves(c, EventV::Line(up_pasv));
    lemma_run_preserves(
        start_data_sp(c, JobV::Upload(filename, data)).0,
        seq![
            EventV::Line(up_pasv),
            EventV::Opened,
            EventV::Line(up_ack),
            EventV::Written,
            EventV::Line(up_fin),
        ],
    );
    assert(up.0.mode == ConnectionType::Passive);
    lemma_download_script(up.0, filename, down_pasv, down_ack, data, down_fin);
}

/// The login conversation: the unsolicited greeting is drained before
/// USER is sent, PASS follows USER's acknowledgement, and the outcome is
/// PASS's classified reply.
pub proof fn lemma_login_script(
    c: ConnectionV,
    username: Seq<char>,
    password: Seq<char>,
    greeting: Seq<char>,
    user_line: Seq<char>,
    pass_line: Seq<char>,
)
    requires
        c.phase is Idle,
        parse_reply_sp(greeting) is Ok,
        parse_reply_sp(user_line) is Ok,
        parse_reply_sp(pass_line) is Ok,
    ensures
        ({
            let started = login_start_sp(c, username, password);
            let evs = seq![
                EventV::Line(greeting),
                EventV::Line(user_line),
                EventV::Line(pass_line),
            ];
            let run = run_sp(started.0, evs);
            &&& started.1 == ActionV::ReadReply
            &&& run.1 == seq![
                ActionV::Exchange(command_line_sp("USER"@, seq![username])),
                ActionV::Exchange(command_line_sp("PASS"@, seq![password])),
                ActionV::Done(OutcomeV::Reply(parse_reply_sp(pass_line)->Ok_0)),
            ]
            &&& run.0.phase is Idle
        }),
{
    reveal_with_fuel(run_sp, 5);
    let started = login_start_sp(c, username, password);
    let evs = seq![
        EventV::Line(greeting),
        EventV::Line(user_line),
        EventV::Line(pass_line),
    ];
    let s0 = started.0;
    let st1 = step_sp(s0, EventV::Line(greeting));
    assert(st1.1 == ActionV::Exchange(command_line_sp("USER"@, seq![username])));
    let st2 = step_sp(st1.0, EventV::Line(user_line));
    assert(st2.1 == ActionV::Exchange(command_line_sp("PASS"@, seq![password])));
    let st3 = step_sp(st2.0, EventV::Line(pass_line));
    assert(st3.1 == ActionV::Done(OutcomeV::Reply(parse_reply_sp(pass_line)->Ok_0)));
    assert(st3.0.phase is Idle);
    let evs1 = evs.drop_first();
    let evs2 = evs1.drop_first();
    let evs3 = evs2.drop_first();
    assert(evs1 =~= seq![EventV::Line(user_line), EventV::Line(pass_line)]);
    assert(evs2 =~= seq![EventV::Line(pass_line)]);
    assert(evs3 =~= Seq::<EventV>::empty());
    assert(run_sp(st3.0, evs3) == (st3.0, Seq::<ActionV>::empty()));
    assert(run_sp(st2.0, evs2) == (st3.0, seq![st3.1] + Seq::<ActionV>::empty()));
    assert(run_sp(st1.0, evs1) == (st3.0, seq![st2.1] + (seq![st3.1] + Seq::<ActionV>::empty())));
    assert(run_sp(s0, evs) == (st3.0, seq![st1.1] + (seq![st2.1] + (seq![st3.1]
        + Seq::<ActionV>::empty()))));
    assert(seq![st1.1] + (seq![st2.1] + (seq![st3.1] + Seq::<ActionV>::empty()))
        =~= seq![st1.1, st2.1, st3.1]);
}

} // verus!
