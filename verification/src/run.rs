//! Whole runs of the packer, and what holds of them.
use vstd::prelude::*;
use crate::fault::PackFault;
use crate::name::derived;
use crate::pack::{respond, ActionView, EventView, PackerView, PhaseView, INODE_AREA};

verus! {

/// The state in which `events`, taken in turn from `state`, leave the
/// packer, and the actions that it asked for on the way.
pub open spec fn run(state: PackerView, events: Seq<EventView>) -> (PackerView, Seq<ActionView>)
    decreases events.len(),
{
    if events.len() == 0 {
        (state, Seq::empty())
    } else {
        let (before, asked) = run(state, events.drop_last());
        let (after, action) = respond(before, events.last());
        (after, asked.push(action))
    }
}

/// What a faultless driver reports while the first `upto` artifacts are
/// packed: of each that it was read, with its content, that its file was
/// created, and that the content was written.
pub open spec fn served(contents: Seq<Seq<u8>>, upto: nat) -> Seq<EventView>
    decreases upto,
{
    if upto == 0 {
        Seq::empty()
    } else {
        served(contents, (upto - 1) as nat) + seq![
            EventView::ArtifactRead { data: contents[upto - 1] },
            EventView::EntryCreated,
            EventView::ContentWritten,
        ]
    }
}

/// What the packer asks for while the first `upto` artifacts are packed:
/// for each, in the order of the listing, that its file is created under
/// its logical name, that its whole content is written at offset 0, and
/// then that the next artifact is read or, after the last, that the root
/// is listed.
pub open spec fn packed(
    state: PackerView,
    names: Seq<Seq<char>>,
    contents: Seq<Seq<u8>>,
    upto: nat,
) -> Seq<ActionView>
    decreases upto,
{
    if upto == 0 {
        Seq::empty()
    } else {
        packed(state, names, contents, (upto - 1) as nat) + seq![
            ActionView::CreateEntry { name: names[upto - 1] },
            ActionView::WriteContent {
                name: names[upto - 1],
                offset: 0,
                data: contents[upto - 1],
            },
            state.turned_to(names, upto).1,
        ]
    }
}

/// A run that is over stays over: whatever it is told, a finished packer
/// has nothing left to do, and one that gave up names its fault again.
pub proof fn lemma_over_stays_over(state: PackerView, event: EventView)
    requires
        state.phase is Finished || state.phase is Failed,
    ensures
        respond(state, event).0 == state,
        state.phase is Finished ==> respond(state, event).1 == ActionView::Done,
        state.phase matches PhaseView::Failed { fault } ==> respond(state, event).1
            == (ActionView::Abort { fault }),
{
}

/// One failure gives the whole run up: a run that is told of a failure of
/// the host, of a file that the engine did not create, or of anything that
/// it had not asked for, ends in `Abort`; and the packer asks for `Abort`
/// exactly when it is left in the phase `Failed`, with the same fault.
pub proof fn lemma_fail_fast(state: PackerView, event: EventView)
    ensures
        respond(state, event).1 is Abort <==> respond(state, event).0.phase is Failed,
        respond(state, event).1 matches ActionView::Abort { fault } ==> respond(state, event).0.phase
            == (PhaseView::Failed { fault }),
        !(state.phase is Finished) && event is HostFailed ==> respond(state, event).1 is Abort,
        state.phase is Creating && event is EntryRefused ==> respond(state, event).1 is Abort,
{
}

/// The directories and the image size of a run never change.
pub proof fn lemma_setup_is_kept(state: PackerView, event: EventView)
    ensures
        respond(state, event).0.source == state.source,
        respond(state, event).0.target == state.target,
        respond(state, event).0.total_blocks == state.total_blocks,
{
}

/// Events taken one after another are a run after a run.
pub proof fn lemma_run_concat(state: PackerView, first: Seq<EventView>, then: Seq<EventView>)
    ensures
        run(state, first + then) == (
            run(run(state, first).0, then).0,
            run(state, first).1 + run(run(state, first).0, then).1,
        ),
    decreases then.len(),
{
    if then.len() == 0 {
        assert(first + then =~= first);
        assert(run(state, first).1 + Seq::<ActionView>::empty() =~= run(state, first).1);
    } else {
        assert((first + then).drop_last() =~= first + then.drop_last());
        assert((first + then).last() == then.last());
        lemma_run_concat(state, first, then.drop_last());
        let mid = run(state, first);
        let head = run(mid.0, then.drop_last());
        let step = respond(head.0, then.last());
        assert(run(state, first + then).1 =~= mid.1 + head.1.push(step.1));
    }
}

/// A run of three events is three steps.
proof fn lemma_run_three(state: PackerView, a: EventView, b: EventView, c: EventView)
    ensures
        run(state, seq![a, b, c]) == ({
            let x = respond(state, a);
            let y = respond(x.0, b);
            let z = respond(y.0, c);
            (z.0, seq![x.1, y.1, z.1])
        }),
{
    let abc = seq![a, b, c];
    let ab = seq![a, b];
    let one = seq![a];
    assert(abc.drop_last() =~= ab);
    assert(ab.drop_last() =~= one);
    assert(one.drop_last() =~= Seq::<EventView>::empty());
    assert(abc.last() == c && ab.last() == b && one.last() == a);
    let x = respond(state, a);
    let y = respond(x.0, b);
    let z = respond(y.0, c);
    assert(run(state, Seq::<EventView>::empty()).1 =~= Seq::<ActionView>::empty());
    assert(run(state, one) == (x.0, Seq::<ActionView>::empty().push(x.1)));
    assert(run(state, ab) == (y.0, Seq::<ActionView>::empty().push(x.1).push(y.1)));
    assert(Seq::<ActionView>::empty().push(x.1).push(y.1).push(z.1) =~= seq![x.1, y.1, z.1]);
}

/// Each artifact is packed in three steps that hand its own name and its
/// own bytes on: while artifact `next` is awaited, its content arriving
/// makes the packer ask for a file of its logical name; the file created
/// makes it ask for that content to be written to it at offset 0; and the
/// content written turns it to the artifact after.
pub proof fn lemma_artifact_round(
    state: PackerView,
    names: Seq<Seq<char>>,
    next: nat,
    data: Seq<u8>,
)
    requires
        state.phase == (PhaseView::Reading { names, next }),
    ensures
        run(
            state,
            seq![
                EventView::ArtifactRead { data },
                EventView::EntryCreated,
                EventView::ContentWritten,
            ],
        ) == (
            state.turned_to(names, next + 1).0,
            seq![
                ActionView::CreateEntry { name: names[next as int] },
                ActionView::WriteContent { name: names[next as int], offset: 0, data },
                state.turned_to(names, next + 1).1,
            ],
        ),
{
    lemma_run_three(
        state,
        EventView::ArtifactRead { data },
        EventView::EntryCreated,
        EventView::ContentWritten,
    );
}

/// The artifacts are packed in the order of the listing: from the point
/// where the first is awaited, a faultless driver's reports on the first
/// `upto` artifacts make the packer ask for exactly `packed`, and leave it
/// turned to artifact `upto`.
pub proof fn lemma_artifacts_in_order(
    state: PackerView,
    names: Seq<Seq<char>>,
    contents: Seq<Seq<u8>>,
    upto: nat,
)
    requires
        0 < names.len(),
        upto <= names.len(),
        state.phase == (PhaseView::Reading { names, next: 0 }),
    ensures
        run(state, served(contents, upto)) == (
            state.turned_to(names, upto).0,
            packed(state, names, contents, upto),
        ),
    decreases upto,
{
    if upto > 0 {
        let done = (upto - 1) as nat;
        lemma_artifacts_in_order(state, names, contents, done);
        let round = seq![
            EventView::ArtifactRead { data: contents[upto - 1] },
            EventView::EntryCreated,
            EventView::ContentWritten,
        ];
        let mid = state.turned_to(names, done).0;
        lemma_run_concat(state, served(contents, done), round);
        lemma_artifact_round(mid, names, done, contents[upto - 1]);
        assert(mid.turned_to(names, upto) == state.turned_to(names, upto));
    }
}

/// What a faultless driver reports over a whole run: the start, the image
/// sized, the image formatted, the listing `entries`, the packing of every
/// artifact, and the listing `listed` of the root.
pub open spec fn faultless_events(
    entries: Seq<Option<Seq<char>>>,
    contents: Seq<Seq<u8>>,
    listed: Seq<Seq<char>>,
) -> Seq<EventView> {
    seq![
        EventView::Start,
        EventView::Provisioned,
        EventView::Formatted,
        EventView::SourceListed { entries },
    ] + served(contents, entries.len()) + seq![EventView::RootListed { names: listed }]
}

/// What the packer asks for over a whole faultless run, in this order: the
/// image under the target directory at its full size; its formatting, with
/// the fixed inode area; the listing of the source directory; the
/// first artifact read from the target directory or, where there is none,
/// the root listed; every artifact packed; and the report.
pub open spec fn faultless_actions(
    state: PackerView,
    names: Seq<Seq<char>>,
    contents: Seq<Seq<u8>>,
    listed: Seq<Seq<char>>,
) -> Seq<ActionView> {
    seq![
        ActionView::Provision {
            path: state.target + "fs.img"@,
            total_blocks: state.total_blocks,
        },
        ActionView::Format {
            total_blocks: state.total_blocks,
            inode_area: INODE_AREA,
        },
        ActionView::ListSource { dir: state.source },
        state.turned_to(names, 0).1,
    ] + packed(state, names, contents, names.len()) + seq![ActionView::Report { names: listed }]
}

/// A run in which nothing fails asks for exactly the actions of
/// `faultless_actions` and ends finished: the image is sized and formatted
/// before anything is created in it, the names are those derived from the
/// source listing, the bytes of each come from the target directory, and
/// the root is listed once, at the end.
pub proof fn lemma_faultless_run(
    state: PackerView,
    entries: Seq<Option<Seq<char>>>,
    contents: Seq<Seq<u8>>,
    listed: Seq<Seq<char>>,
)
    requires
        state.phase is Idle,
        derived(entries) is Ok,
    ensures
        run(state, faultless_events(entries, contents, listed)) == (
            state.at(PhaseView::Finished),
            faultless_actions(state, derived(entries)->Ok_0, contents, listed),
        ),
{
    let names = derived(entries)->Ok_0;
    crate::name::lemma_derived_ok(entries);
    let opening = seq![
        EventView::Start,
        EventView::Provisioned,
        EventView::Formatted,
        EventView::SourceListed { entries },
    ];
    let closing = seq![EventView::RootListed { names: listed }];
    let middle = served(contents, entries.len());
    let s1 = respond(state, EventView::Start);
    let s2 = respond(s1.0, EventView::Provisioned);
    let s3 = respond(s2.0, EventView::Formatted);
    let s4 = respond(s3.0, EventView::SourceListed { entries });
    assert(run(state, opening) == (s4.0, seq![s1.1, s2.1, s3.1, s4.1])) by {
        let three = seq![EventView::Start, EventView::Provisioned, EventView::Formatted];
        assert(opening.drop_last() =~= three);
        lemma_run_three(state, EventView::Start, EventView::Provisioned, EventView::Formatted);
        assert(seq![s1.1, s2.1, s3.1].push(s4.1) =~= seq![s1.1, s2.1, s3.1, s4.1]);
    }
    assert(s4 == state.turned_to(names, 0));
    let after_middle = run(s4.0, middle);
    assert(after_middle == (
        state.at(PhaseView::Confirming),
        packed(state, names, contents, names.len()),
    )) by {
        if names.len() > 0 {
            lemma_artifacts_in_order(s4.0, names, contents, names.len());
            lemma_packed_of(s4.0, state, names, contents, names.len());
            assert(s4.0.turned_to(names, names.len()) == state.turned_to(names, names.len()));
        }
    }
    assert(run(after_middle.0, closing) == (
        state.at(PhaseView::Finished),
        seq![ActionView::Report { names: listed }],
    )) by {
        assert(closing.drop_last() =~= Seq::<EventView>::empty());
        assert(run(after_middle.0, Seq::<EventView>::empty()).1 =~= Seq::<ActionView>::empty());
        assert(Seq::<ActionView>::empty().push(ActionView::Report { names: listed }) =~= seq![
            ActionView::Report { names: listed },
        ]);
    }
    lemma_run_concat(state, opening, middle);
    lemma_run_concat(state, opening + middle, closing);
}

/// What is asked for while artifacts are packed depends on the directories
/// of the run only, not on its phase.
proof fn lemma_packed_of(
    a: PackerView,
    b: PackerView,
    names: Seq<Seq<char>>,
    contents: Seq<Seq<u8>>,
    upto: nat,
)
    requires
        a.target == b.target,
    ensures
        packed(a, names, contents, upto) == packed(b, names, contents, upto),
    decreases upto,
{
    if upto > 0 {
        lemma_packed_of(a, b, names, contents, (upto - 1) as nat);
    }
}

} // verus!
