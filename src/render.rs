use vstd::prelude::*;
use vstd::string::*;
use crate::classify::{Category, category_of, classify_display_category};
use crate::duration::{TimeError, elapsed_of, get_seconds_elapsed};
use crate::models::{Identity, Job, Status, Step, TimeStat, Timestamp};
use crate::style::{Segment, Tone, decimal, decimal_string, render_segments, paint, piece_shows, segments_model, shows};

verus! {

/// The style of each display category.
pub open spec fn tone_of(c: Category) -> Tone {
    match c {
        Category::Pending => Tone::Gray,
        Category::Active => Tone::Yellow,
        Category::Success => Tone::Green,
        Category::Neutral => Tone::Yellow,
        Category::Failure => Tone::Red,
    }
}

/// Returns the style of a display category.
pub fn category_tone(c: Category) -> (r: Tone)
    ensures
        r == tone_of(c),
{
    match c {
        Category::Pending => Tone::Gray,
        Category::Active => Tone::Yellow,
        Category::Success => Tone::Green,
        Category::Neutral => Tone::Yellow,
        Category::Failure => Tone::Red,
    }
}

/// An identity's name in the style of its category.
pub open spec fn name_model(id: Identity) -> (Seq<char>, Tone) {
    (id.name@, tone_of(category_of(id.status, id.conclusion)))
}

/// The elapsed-time suffix: `(Ns)`, or `(?s)` where a timestamp is malformed.
pub open spec fn seconds_text(e: Result<i64, TimeError>) -> Seq<char> {
    match e {
        Ok(n) => "("@ + decimal(n as int) + "s)"@,
        Err(_) => "(?s)"@,
    }
}

/// The label of a status, as its variant name.
pub open spec fn status_label(s: Status) -> Seq<char> {
    match s {
        Status::Queued => "Queued"@,
        Status::InProgress => "InProgress"@,
        Status::Completed => "Completed"@,
    }
}

/// One job in the jobs line: its styled name and its elapsed time.
pub open spec fn job_model(job: Job, now: Timestamp) -> Seq<(Seq<char>, Tone)> {
    seq![name_model(job.identity), (seconds_text(elapsed_of(job.time_stat, now)), Tone::Purple)]
}

/// The jobs, in order, separated by `, `.
pub open spec fn jobs_items(jobs: Seq<Job>, now: Timestamp) -> Seq<(Seq<char>, Tone)>
    decreases jobs.len(),
{
    if jobs.len() == 0 {
        seq![]
    } else if jobs.len() == 1 {
        job_model(jobs[0], now)
    } else {
        jobs_items(jobs.drop_last(), now) + seq![(", "@, Tone::Plain)] + job_model(jobs.last(), now)
    }
}

/// The whole jobs line: the items between `[` and `]`.
pub open spec fn jobs_line_model(jobs: Seq<Job>, now: Timestamp) -> Seq<(Seq<char>, Tone)> {
    seq![("["@, Tone::Plain)] + jobs_items(jobs, now) + seq![("]"@, Tone::Plain)]
}

/// One step line: a newline and indentation, then
/// `<name> > <status> (Ns)`.
pub open spec fn step_model(step: Step, now: Timestamp) -> Seq<(Seq<char>, Tone)> {
    seq![
        ("\n    "@, Tone::Plain),
        name_model(step.identity),
        (" "@, Tone::Plain),
        (">"@, Tone::Bold),
        (" "@, Tone::Plain),
        (status_label(step.identity.status), Tone::Italic),
        (" "@, Tone::Plain),
        (seconds_text(elapsed_of(step.time_stat, now)), Tone::Plain),
    ]
}

/// All step lines, in order.
pub open spec fn steps_model(steps: Seq<Step>, now: Timestamp) -> Seq<(Seq<char>, Tone)>
    decreases steps.len(),
{
    if steps.len() == 0 {
        seq![]
    } else {
        steps_model(steps.drop_last(), now) + step_model(steps.last(), now)
    }
}

fn plain(s: &str) -> (r: Segment)
    ensures
        r.text@ == s@,
        r.tone == Tone::Plain,
{
    Segment { text: String::from_str(s), tone: Tone::Plain }
}

/// The name of an identity, as a segment in its category's style.
pub fn name_segment(identity: &Identity) -> (r: Segment)
    ensures
        (r.text@, r.tone) == name_model(*identity),
{
    let c = classify_display_category(identity);
    Segment { text: identity.name.clone(), tone: category_tone(c) }
}

/// The elapsed-time suffix of a span, in the given style.
pub fn seconds_segment(time_stat: &TimeStat, now: Timestamp, tone: Tone) -> (r: Segment)
    ensures
        r.text@ == seconds_text(elapsed_of(*time_stat, now)),
        r.tone == tone,
{
    match get_seconds_elapsed(time_stat, now) {
        Ok(n) => {
            let mut t = String::from_str("(");
            let d = decimal_string(n);
            t.append(d.as_str());
            t.append("s)");
            Segment { text: t, tone }
        },
        Err(_) => Segment { text: String::from_str("(?s)"), tone },
    }
}

/// Returns the label of a status.
pub fn status_text(s: Status) -> (r: String)
    ensures
        r@ == status_label(s),
{
    match s {
        Status::Queued => String::from_str("Queued"),
        Status::InProgress => String::from_str("InProgress"),
        Status::Completed => String::from_str("Completed"),
    }
}

/// The name of an identity, shown in its category's style.
pub fn color_identity_name(identity: &Identity) -> (r: String)
    ensures
        piece_shows(r@, name_model(*identity)),
{
    paint(&name_segment(identity))
}

/// The jobs line as segments: `[name(Ns), name(Ns), ...]`.
pub fn jobs_line_segments(jobs: &Vec<Job>, now: Timestamp) -> (r: Vec<Segment>)
    ensures
        segments_model(r@) == jobs_line_model(jobs@, now),
{
    let mut segs: Vec<Segment> = Vec::new();
    segs.push(plain("["));
    let mut i: usize = 0;
    while i < jobs.len()
        invariant
            i <= jobs@.len(),
            segments_model(segs@) == seq![("["@, Tone::Plain)] + jobs_items(jobs@.take(i as int), now),
        decreases jobs@.len() - i,
    {
        let ghost prev = segments_model(segs@);
        if i > 0 {
            segs.push(plain(", "));
        }
        let job = &jobs[i];
        segs.push(name_segment(&job.identity));
        segs.push(seconds_segment(&job.time_stat, now, Tone::Purple));
        proof {
            let t = jobs@.take(i + 1);
            assert(t.drop_last() =~= jobs@.take(i as int));
            assert(t.last() == jobs@[i as int]);
            if i == 0 {
                assert(t.len() == 1);
                assert(segments_model(segs@) =~= prev + job_model(jobs@[0], now));
            } else {
                assert(segments_model(segs@) =~= prev + seq![(", "@, Tone::Plain)] + job_model(
                    jobs@[i as int],
                    now,
                ));
            }
            assert(segments_model(segs@) =~= seq![("["@, Tone::Plain)] + jobs_items(t, now));
        }
        i += 1;
    }
    let ghost prev = segments_model(segs@);
    segs.push(plain("]"));
    assert(jobs@.take(jobs@.len() as int) =~= jobs@);
    assert(segments_model(segs@) =~= prev + seq![("]"@, Tone::Plain)]);
    segs
}

/// The step lines as segments, one `\n    <name> > <status> (Ns)` per step.
pub fn steps_block_segments(steps: &Vec<Step>, now: Timestamp) -> (r: Vec<Segment>)
    ensures
        segments_model(r@) == steps_model(steps@, now),
{
    let mut segs: Vec<Segment> = Vec::new();
    let mut i: usize = 0;
    while i < steps.len()
        invariant
            i <= steps@.len(),
            segments_model(segs@) == steps_model(steps@.take(i as int), now),
        decreases steps@.len() - i,
    {
        let ghost prev = segments_model(segs@);
        let step = &steps[i];
        segs.push(plain("\n    "));
        segs.push(name_segment(&step.identity));
        segs.push(plain(" "));
        segs.push(Segment { text: String::from_str(">"), tone: Tone::Bold });
        segs.push(plain(" "));
        segs.push(Segment { text: status_text(step.identity.status), tone: Tone::Italic });
        segs.push(plain(" "));
        segs.push(seconds_segment(&step.time_stat, now, Tone::Plain));
        proof {
            let t = steps@.take(i + 1);
            assert(t.drop_last() =~= steps@.take(i as int));
            assert(t.last() == steps@[i as int]);
            assert(segments_model(segs@) =~= prev + step_model(steps@[i as int], now));
        }
        i += 1;
    }
    assert(steps@.take(steps@.len() as int) =~= steps@);
    segs
}

/// The jobs line, shown: `[name(Ns), ...]`, names styled by category and
/// times in the accent style. An empty list gives `[]`.
pub fn get_jobs_list_string(jobs: &Vec<Job>, now: Timestamp) -> (r: String)
    ensures
        shows(r@, jobs_line_model(jobs@, now)),
{
    render_segments(&jobs_line_segments(jobs, now))
}

/// The step lines, shown; an empty list gives the empty text.
pub fn get_steps_list_string(steps: &Vec<Step>, now: Timestamp) -> (r: String)
    ensures
        shows(r@, steps_model(steps@, now)),
{
    render_segments(&steps_block_segments(steps, now))
}

} // verus!
