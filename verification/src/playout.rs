//! Playout plans: the demuxed timed units of each track, each a payload with
//! its presentation duration in milliseconds. Video units carry the
//! configured nominal frame interval; audio units carry a duration derived
//! from the delta between successive timestamp counters, scaled to real time.
use crate::annexb::next_access_unit;
use crate::annexb::next_unit_spec;
use crate::annexb::video_units;
use crate::oggpage::audio_pages;
use crate::oggpage::page_at;
use crate::oggpage::parse_page;
use vstd::prelude::*;

verus! {

/// One decodable chunk of media and its presentation duration.
pub struct TimedUnit {
    pub payload: Vec<u8>,
    pub duration_ms: u64,
}

/// The payloads of a plan, in order.
pub open spec fn payload_views(units: Seq<TimedUnit>) -> Seq<Seq<u8>> {
    units.map(|i: int, u: TimedUnit| u.payload@)
}

/// The plan as mathematical pairs of payload and duration.
pub open spec fn unit_views(units: Seq<TimedUnit>) -> Seq<(Seq<u8>, nat)> {
    units.map(|i: int, u: TimedUnit| (u.payload@, u.duration_ms as nat))
}

/// Duration of one audio page in milliseconds: the timestamp-counter delta
/// scaled from counter units (`rate` counts per second) to milliseconds.
pub open spec fn page_duration_spec(prev: nat, cur: nat, rate: nat) -> nat
    recommends
        rate > 0,
        prev <= cur,
{
    (((cur - prev) * 1000) / (rate as int)) as nat
}

/// Computes the presentation duration of an audio page from the previous and
/// current timestamp counters at the given counter rate.
pub fn page_duration_ms(prev: u64, cur: u64, rate: u64) -> (r: u64)
    requires
        rate > 0,
        prev <= cur,
        (cur - prev) * 1000 <= u64::MAX,
    ensures
        r == page_duration_spec(prev as nat, cur as nat, rate as nat),
{
    (cur - prev) * 1000 / rate
}

/// The full video plan: every access unit of the stream, each with the
/// configured nominal frame interval as its duration.
pub open spec fn video_plan_spec(s: Seq<u8>, frame_ms: nat) -> Seq<(Seq<u8>, nat)> {
    video_units(s, 0).map(|i: int, p: Seq<u8>| (p, frame_ms))
}

/// The audio plan over a page sequence, from the previous timestamp counter
/// `prev`: each page becomes its payload with the scaled counter delta as
/// duration. A counter that runs backwards, or a delta too large to scale,
/// is malformed data and ends the plan like an end of stream.
pub open spec fn audio_schedule(pages: Seq<(nat, Seq<u8>)>, prev: nat, rate: nat) -> Seq<
    (Seq<u8>, nat),
>
    decreases pages.len(),
{
    if pages.len() == 0 {
        Seq::empty()
    } else {
        let g = pages[0].0;
        let p = pages[0].1;
        if g < prev || (g - prev) * 1000 > u64::MAX {
            Seq::empty()
        } else {
            seq![(p, page_duration_spec(prev, g, rate))] + audio_schedule(
                pages.drop_first(),
                g,
                rate,
            )
        }
    }
}

/// The full audio plan of a container: its first page is the stream header,
/// consumed when the demuxer is built; every later page is scheduled with the
/// previous counter starting at zero.
pub open spec fn audio_plan_spec(s: Seq<u8>, rate: nat) -> Seq<(Seq<u8>, nat)> {
    let pages = audio_pages(s, 0);
    if pages.len() == 0 {
        Seq::empty()
    } else {
        audio_schedule(pages.drop_first(), 0, rate)
    }
}

/// Demuxes a video elementary stream into its playout plan. Truncated or
/// corrupt data merely ends the plan early; the builder terminates on every
/// input.
pub fn video_plan(data: &Vec<u8>, frame_ms: u64) -> (r: Vec<TimedUnit>)
    ensures
        unit_views(r@) == video_plan_spec(data@, frame_ms as nat),
{
    let mut r: Vec<TimedUnit> = Vec::new();
    let mut cur: usize = 0;
    loop
        invariant
            cur <= data.len(),
            forall|i: int| 0 <= i < r@.len() ==> r@[i].duration_ms == frame_ms,
            payload_views(r@) + video_units(data@, cur as int) == video_units(data@, 0),
        decreases data.len() - cur,
    {
        match next_access_unit(data, cur) {
            None => {
                proof {
                    assert(video_units(data@, cur as int) =~= Seq::<Seq<u8>>::empty());
                    assert(payload_views(r@) =~= video_units(data@, 0));
                    assert(unit_views(r@) =~= video_plan_spec(data@, frame_ms as nat));
                }
                return r;
            },
            Some((payload, next)) => {
                proof {
                    let s = data@;
                    let ps = next_unit_spec(s, cur as int)->Some_0.0;
                    let pe = next_unit_spec(s, cur as int)->Some_0.1;
                    assert(video_units(s, cur as int) == seq![s.subrange(ps, pe)] + video_units(
                        s,
                        next as int,
                    ));
                }
                let ghost old_r = r@;
                r.push(TimedUnit { payload, duration_ms: frame_ms });
                proof {
                    assert(payload_views(r@) =~= payload_views(old_r).push(
                        r@[old_r.len() as int].payload@,
                    ));
                    assert(payload_views(r@) + video_units(data@, next as int) =~= payload_views(
                        old_r,
                    ) + video_units(data@, cur as int));
                }
                cur = next;
            },
        }
    }
}

/// Demuxes an audio container into its playout plan: the header page is
/// consumed, and each later page is emitted with its derived duration, the
/// previous counter starting at zero. Truncated or corrupt data merely ends
/// the plan early; the builder terminates on every input.
pub fn audio_plan(data: &Vec<u8>, rate: u64) -> (r: Vec<TimedUnit>)
    requires
        rate > 0,
    ensures
        unit_views(r@) == audio_plan_spec(data@, rate as nat),
{
    let mut r: Vec<TimedUnit> = Vec::new();
    let first = parse_page(data, 0);
    let (mut cur, mut prev): (usize, u64) = match first {
        None => {
            proof {
                assert(audio_pages(data@, 0) =~= Seq::<(nat, Seq<u8>)>::empty());
                assert(unit_views(r@) =~= audio_plan_spec(data@, rate as nat));
            }
            return r;
        },
        Some((g0, p0, next0)) => {
            proof {
                let s = data@;
                let ps = page_at(s, 0)->Some_0.1;
                let pe = page_at(s, 0)->Some_0.2;
                assert(audio_pages(s, 0) == seq![(g0 as nat, s.subrange(ps, pe))] + audio_pages(
                    s,
                    next0 as int,
                ));
                assert(audio_pages(s, 0).drop_first() =~= audio_pages(s, next0 as int));
            }
            (next0, 0u64)
        },
    };
    loop
        invariant
            rate > 0,
            cur <= data.len(),
            unit_views(r@) + audio_schedule(audio_pages(data@, cur as int), prev as nat, rate as nat)
                == audio_plan_spec(data@, rate as nat),
        decreases data.len() - cur,
    {
        match parse_page(data, cur) {
            None => {
                proof {
                    assert(audio_pages(data@, cur as int) =~= Seq::<(nat, Seq<u8>)>::empty());
                    assert(unit_views(r@) =~= audio_plan_spec(data@, rate as nat));
                }
                return r;
            },
            Some((g, payload, next)) => {
                proof {
                    let s = data@;
                    let ps = page_at(s, cur as int)->Some_0.1;
                    let pe = page_at(s, cur as int)->Some_0.2;
                    assert(audio_pages(s, cur as int) == seq![(g as nat, s.subrange(ps, pe))]
                        + audio_pages(s, next as int));
                    assert(audio_pages(s, cur as int).drop_first() =~= audio_pages(
                        s,
                        next as int,
                    ));
                    assert(audio_pages(s, cur as int)[0] == (g as nat, s.subrange(ps, pe)));
                }
                if g < prev {
                    proof {
                        assert(audio_schedule(
                            audio_pages(data@, cur as int),
                            prev as nat,
                            rate as nat,
                        ) =~= Seq::<(Seq<u8>, nat)>::empty());
                        assert(unit_views(r@) =~= audio_plan_spec(data@, rate as nat));
                    }
                    return r;
                }
                if g - prev > u64::MAX / 1000 {
                    proof {
                        assert((g - prev) * 1000 > u64::MAX) by {
                            assert(g - prev >= u64::MAX / 1000 + 1);
                            assert((g - prev) * 1000 >= (u64::MAX / 1000 + 1) * 1000);
                        }
                        assert(audio_schedule(
                            audio_pages(data@, cur as int),
                            prev as nat,
                            rate as nat,
                        ) =~= Seq::<(Seq<u8>, nat)>::empty());
                        assert(unit_views(r@) =~= audio_plan_spec(data@, rate as nat));
                    }
                    return r;
                }
                proof {
                    assert((g - prev) * 1000 <= (u64::MAX / 1000) * 1000);
                }
                let dur = page_duration_ms(prev, g, rate);
                let ghost old_r = r@;
                proof {
                    assert(audio_schedule(
                        audio_pages(data@, cur as int),
                        prev as nat,
                        rate as nat,
                    ) == seq![
                        (data@.subrange(
                            page_at(data@, cur as int)->Some_0.1,
                            page_at(data@, cur as int)->Some_0.2,
                        ), page_duration_spec(prev as nat, g as nat, rate as nat)),
                    ] + audio_schedule(
                        audio_pages(data@, next as int),
                        g as nat,
                        rate as nat,
                    ));
                }
                r.push(TimedUnit { payload, duration_ms: dur });
                proof {
                    assert(unit_views(r@) =~= unit_views(old_r).push(
                        (r@[old_r.len() as int].payload@, dur as nat),
                    ));
                    assert(unit_views(r@) + audio_schedule(
                        audio_pages(data@, next as int),
                        g as nat,
                        rate as nat,
                    ) =~= unit_views(old_r) + audio_schedule(
                        audio_pages(data@, cur as int),
                        prev as nat,
                        rate as nat,
                    ));
                }
                prev = g;
                cur = next;
            },
        }
    }
}

} // verus!
