//! The body encoder. Encoding has two steps with file reading between
//! them: `plan_body` decides from the declared body what is sent and which
//! local files it needs; `attach_files` takes what reading those files gave
//! and makes the payload, or fails at the first file that could not be had.

use vstd::prelude::*;
use crate::entries::enabled_pairs;
use crate::environment::{pairs_view, resolve, Environment};
use crate::files::{get_file_content_with_name, loaded_file, FileError, FileOutcome};
use crate::request::{ContentType, ContentTypeView};
use crate::text::{chars_of, has_prefix, matches_at, slice_of, string_of};

verus! {

/// One part of a multipart body, before any file was read.
#[derive(Debug, PartialEq, Eq)]
pub enum Part {
    Text { name: String, value: String },
    File { name: String, path: String },
}

/// The mathematical content of a part.
pub enum PartView {
    Text { name: Seq<char>, value: Seq<char> },
    File { name: Seq<char>, path: Seq<char> },
}

impl View for Part {
    type V = PartView;

    open spec fn view(&self) -> PartView {
        match self {
            Part::Text { name, value } => PartView::Text { name: name@, value: value@ },
            Part::File { name, path } => PartView::File { name: name@, path: path@ },
        }
    }
}

/// The mathematical content of a list of parts.
pub open spec fn parts_view(parts: Seq<Part>) -> Seq<PartView> {
    parts.map_values(|p: Part| p@)
}

/// What a request sends as its body, before any file was read.
#[derive(Debug, PartialEq, Eq)]
pub enum BodyPlan {
    Empty,
    Text(String),
    Form(Vec<(String, String)>),
    Multipart(Vec<Part>),
    File(String),
}

/// The mathematical content of a body plan.
pub enum BodyPlanView {
    Empty,
    Text(Seq<char>),
    Form(Seq<(Seq<char>, Seq<char>)>),
    Multipart(Seq<PartView>),
    File(Seq<char>),
}

impl View for BodyPlan {
    type V = BodyPlanView;

    open spec fn view(&self) -> BodyPlanView {
        match self {
            BodyPlan::Empty => BodyPlanView::Empty,
            BodyPlan::Text(text) => BodyPlanView::Text(text@),
            BodyPlan::Form(pairs) => BodyPlanView::Form(pairs_view(pairs@)),
            BodyPlan::Multipart(parts) => BodyPlanView::Multipart(parts_view(parts@)),
            BodyPlan::File(path) => BodyPlanView::File(path@),
        }
    }
}

/// One part of a multipart body, ready to be sent.
#[derive(Debug, PartialEq, Eq)]
pub enum LoadedPart {
    Text { name: String, value: String },
    File { name: String, file_name: String, content: Vec<u8> },
}

/// The mathematical content of a loaded part.
pub enum LoadedPartView {
    Text { name: Seq<char>, value: Seq<char> },
    File { name: Seq<char>, file_name: Seq<char>, content: Seq<u8> },
}

impl View for LoadedPart {
    type V = LoadedPartView;

    open spec fn view(&self) -> LoadedPartView {
        match self {
            LoadedPart::Text { name, value } => LoadedPartView::Text {
                name: name@,
                value: value@,
            },
            LoadedPart::File { name, file_name, content } => LoadedPartView::File {
                name: name@,
                file_name: file_name@,
                content: content@,
            },
        }
    }
}

/// The mathematical content of a list of loaded parts.
pub open spec fn loaded_parts_view(parts: Seq<LoadedPart>) -> Seq<LoadedPartView> {
    parts.map_values(|p: LoadedPart| p@)
}

/// The body of a request as the transport gets it. A `File` body names the
/// file whose contents the transport streams.
#[derive(Debug, PartialEq, Eq)]
pub enum Payload {
    Empty,
    Text(String),
    Form(Vec<(String, String)>),
    Multipart(Vec<LoadedPart>),
    File(String),
}

/// The mathematical content of a payload.
pub enum PayloadView {
    Empty,
    Text(Seq<char>),
    Form(Seq<(Seq<char>, Seq<char>)>),
    Multipart(Seq<LoadedPartView>),
    File(Seq<char>),
}

impl View for Payload {
    type V = PayloadView;

    open spec fn view(&self) -> PayloadView {
        match self {
            Payload::Empty => PayloadView::Empty,
            Payload::Text(text) => PayloadView::Text(text@),
            Payload::Form(pairs) => PayloadView::Form(pairs_view(pairs@)),
            Payload::Multipart(parts) => PayloadView::Multipart(loaded_parts_view(parts@)),
            Payload::File(path) => PayloadView::File(path@),
        }
    }
}

/// The two characters that mark a multipart value as the path of a file.
pub open spec fn file_marker() -> Seq<char> {
    seq!['!', '!']
}

/// The part that a resolved multipart pair stands for: a file where the
/// value begins with `!!`, the rest of the value being the path; else text.
pub open spec fn part_of(pair: (Seq<char>, Seq<char>)) -> PartView {
    if has_prefix(pair.1, file_marker()) {
        PartView::File { name: pair.0, path: pair.1.skip(2) }
    } else {
        PartView::Text { name: pair.0, value: pair.1 }
    }
}

/// What a declared body sends: nothing; its text as it stands; its enabled
/// fields, resolved; one part for each enabled field; or the file at the
/// resolved path.
pub open spec fn planned_body(body: ContentTypeView, env: Seq<(Seq<char>, Seq<char>)>) -> BodyPlanView {
    match body {
        ContentTypeView::NoBody => BodyPlanView::Empty,
        ContentTypeView::File(path) => BodyPlanView::File(resolve(path, env)),
        ContentTypeView::Multipart(fields) => BodyPlanView::Multipart(
            enabled_pairs(fields, env).map_values(|pair: (Seq<char>, Seq<char>)| part_of(pair)),
        ),
        ContentTypeView::Form(fields) => BodyPlanView::Form(enabled_pairs(fields, env)),
        ContentTypeView::Raw(text) => BodyPlanView::Text(text),
        ContentTypeView::Json(text) => BodyPlanView::Text(text),
        ContentTypeView::Xml(text) => BodyPlanView::Text(text),
        ContentTypeView::Html(text) => BodyPlanView::Text(text),
        ContentTypeView::Javascript(text) => BodyPlanView::Text(text),
    }
}

/// The paths of the files that a list of parts needs, in order.
pub open spec fn part_paths(parts: Seq<PartView>) -> Seq<Seq<char>>
    decreases parts.len(),
{
    if parts.len() == 0 {
        Seq::empty()
    } else {
        match parts[0] {
            PartView::Text { .. } => part_paths(parts.skip(1)),
            PartView::File { name, path } => seq![path] + part_paths(parts.skip(1)),
        }
    }
}

/// The paths of the files that a body needs, in the order in which their
/// outcomes are consumed.
pub open spec fn needed_files(plan: BodyPlanView) -> Seq<Seq<char>> {
    match plan {
        BodyPlanView::Multipart(parts) => part_paths(parts),
        BodyPlanView::File(path) => seq![path],
        _ => Seq::empty(),
    }
}

/// The parts with their files attached. Each file part takes the next
/// outcome of `reads`; the first one whose outcome is missing or a failure,
/// or whose path names no file, fails the whole.
pub open spec fn attached_parts(parts: Seq<PartView>, reads: Seq<Option<Seq<u8>>>) -> Result<
    Seq<LoadedPartView>,
    FileError,
>
    decreases parts.len(),
{
    if parts.len() == 0 {
        Ok(Seq::empty())
    } else {
        match parts[0] {
            PartView::Text { name, value } => match attached_parts(parts.skip(1), reads) {
                Ok(rest) => Ok(seq![LoadedPartView::Text { name, value }] + rest),
                Err(fault) => Err(fault),
            },
            PartView::File { name, path } => {
                let outcome = if reads.len() == 0 {
                    None
                } else {
                    reads[0]
                };
                match loaded_file(path, outcome) {
                    Err(fault) => Err(fault),
                    Ok((content, file_name)) => match attached_parts(
                        parts.skip(1),
                        reads.skip(1),
                    ) {
                        Ok(rest) => Ok(
                            seq![LoadedPartView::File { name, file_name, content }] + rest,
                        ),
                        Err(fault) => Err(fault),
                    },
                }
            },
        }
    }
}

/// The payload of a planned body, given the outcomes of reading the files
/// it needs, in order. For the streamed file of a `File` body only the
/// success of the first outcome counts.
pub open spec fn attached(plan: BodyPlanView, reads: Seq<Option<Seq<u8>>>) -> Result<
    PayloadView,
    FileError,
> {
    match plan {
        BodyPlanView::Empty => Ok(PayloadView::Empty),
        BodyPlanView::Text(text) => Ok(PayloadView::Text(text)),
        BodyPlanView::Form(pairs) => Ok(PayloadView::Form(pairs)),
        BodyPlanView::Multipart(parts) => match attached_parts(parts, reads) {
            Ok(loaded) => Ok(PayloadView::Multipart(loaded)),
            Err(fault) => Err(fault),
        },
        BodyPlanView::File(path) => if reads.len() > 0 && reads[0] is Some {
            Ok(PayloadView::File(path))
        } else {
            Err(FileError::Unreadable)
        },
    }
}

/// The mathematical content of a list of outcomes.
pub open spec fn outcomes_view(reads: Seq<FileOutcome>) -> Seq<Option<Seq<u8>>> {
    reads.map_values(|r: FileOutcome| r@)
}

/// The mathematical content of an encoding's result.
pub open spec fn payload_view(encoded: Result<Payload, FileError>) -> Result<
    PayloadView,
    FileError,
> {
    match encoded {
        Ok(payload) => Ok(payload@),
        Err(fault) => Err(fault),
    }
}

/// The part that a resolved multipart pair stands for.
pub fn make_part(name: String, value: String) -> (part: Part)
    ensures
        part@ == part_of((name@, value@)),
{
    let chars = chars_of(value.as_str());
    let mut marker: Vec<char> = Vec::new();
    marker.push('!');
    marker.push('!');
    proof {
        assert(marker@ =~= file_marker());
    }
    if matches_at(&chars, &marker, 0) {
        let path = slice_of(&chars, 2, chars.len());
        proof {
            assert(chars@.subrange(2, chars@.len() as int) =~= value@.skip(2));
        }
        Part::File { name, path: string_of(&path) }
    } else {
        Part::Text { name, value }
    }
}

/// One part for each pair, in order.
fn make_parts(pairs: Vec<(String, String)>) -> (parts: Vec<Part>)
    ensures
        parts_view(parts@) == pairs_view(pairs@).map_values(
            |pair: (Seq<char>, Seq<char>)| part_of(pair),
        ),
{
    let ghost all = pairs_view(pairs@);
    let ghost wanted = all.map_values(|pair: (Seq<char>, Seq<char>)| part_of(pair));
    let mut parts: Vec<Part> = Vec::new();
    for pair in it: pairs
        invariant
            pairs_view(it.seq()) == all,
            wanted == all.map_values(|pair: (Seq<char>, Seq<char>)| part_of(pair)),
            parts_view(parts@) == wanted.take(it.index() as int),
    {
        let ghost before = parts_view(parts@);
        let (name, value) = pair;
        let part = make_part(name, value);
        parts.push(part);
        proof {
            assert(all[it.index() as int] == (name@, value@));
            assert(parts_view(parts@) =~= before.push(part@));
            assert(wanted.take(it.index() + 1) =~= wanted.take(it.index() as int).push(part@));
        }
    }
    proof {
        assert(wanted.take(all.len() as int) =~= wanted);
    }
    parts
}

/// Decides what the declared body sends, and which files it needs.
pub fn plan_body(body: &ContentType, env: &Environment) -> (plan: BodyPlan)
    ensures
        plan@ == planned_body(body@, env@),
{
    match body {
        ContentType::NoBody => BodyPlan::Empty,
        ContentType::File(path) => BodyPlan::File(env.replace_env_keys_by_value(path.as_str())),
        ContentType::Multipart(fields) => BodyPlan::Multipart(
            make_parts(env.key_value_vec_to_tuple_vec(fields)),
        ),
        ContentType::Form(fields) => BodyPlan::Form(env.key_value_vec_to_tuple_vec(fields)),
        ContentType::Raw(text) => BodyPlan::Text(text.clone()),
        ContentType::Json(text) => BodyPlan::Text(text.clone()),
        ContentType::Xml(text) => BodyPlan::Text(text.clone()),
        ContentType::Html(text) => BodyPlan::Text(text.clone()),
        ContentType::Javascript(text) => BodyPlan::Text(text.clone()),
    }
}

/// `done`, followed by what attaching the remaining parts gives.
pub open spec fn followed_by(
    done: Seq<LoadedPartView>,
    rest: Result<Seq<LoadedPartView>, FileError>,
) -> Result<Seq<LoadedPartView>, FileError> {
    match rest {
        Ok(parts) => Ok(done + parts),
        Err(fault) => Err(fault),
    }
}

/// Attaches to each file part the next outcome of `reads`.
fn attach_parts(parts: Vec<Part>, reads: Vec<FileOutcome>) -> (outcome: Result<
    Vec<LoadedPart>,
    FileError,
>)
    ensures
        match outcome {
            Ok(loaded) => attached_parts(parts_view(parts@), outcomes_view(reads@)) == Ok::<
                Seq<LoadedPartView>,
                FileError,
            >(loaded_parts_view(loaded@)),
            Err(fault) => attached_parts(parts_view(parts@), outcomes_view(reads@)) == Err::<
                Seq<LoadedPartView>,
                FileError,
            >(fault),
        },
{
    let ghost all = parts_view(parts@);
    let ghost wanted = attached_parts(all, outcomes_view(reads@));
    let mut pending = reads;
    let mut loaded: Vec<LoadedPart> = Vec::new();
    proof {
        assert(all.skip(0) =~= all);
        assert(loaded_parts_view(loaded@) =~= Seq::<LoadedPartView>::empty());
        assert(followed_by(loaded_parts_view(loaded@), wanted) =~= wanted) by {
            if let Ok(rest) = wanted {
                assert(Seq::<LoadedPartView>::empty() + rest =~= rest);
            }
        }
    }
    for part in it: parts
        invariant
            parts_view(it.seq()) == all,
            wanted == attached_parts(parts_view(parts@), outcomes_view(reads@)),
            wanted == followed_by(
                loaded_parts_view(loaded@),
                attached_parts(all.skip(it.index() as int), outcomes_view(pending@)),
            ),
    {
        let ghost done = loaded_parts_view(loaded@);
        let ghost left = outcomes_view(pending@);
        let ghost ahead = all.skip(it.index() as int);
        proof {
            assert(ahead[0] == part@);
            assert(ahead.skip(1) =~= all.skip(it.index() + 1));
        }
        match part {
            Part::Text { name, value } => {
                let ghost next = LoadedPartView::Text { name: name@, value: value@ };
                loaded.push(LoadedPart::Text { name, value });
                proof {
                    assert(loaded_parts_view(loaded@) =~= done.push(next));
                    if let Ok(rest) = attached_parts(ahead.skip(1), left) {
                        assert(done + (seq![next] + rest) =~= done.push(next) + rest);
                    }
                }
            },
            Part::File { name, path } => {
                let outcome = if pending.len() == 0 {
                    FileOutcome::Unreadable
                } else {
                    pending.remove(0)
                };
                proof {
                    if left.len() > 0 {
                        assert(outcome@ == left[0]);
                        assert(outcomes_view(pending@) =~= left.skip(1));
                    }
                }
                match get_file_content_with_name(path.as_str(), outcome) {
                    Err(fault) => {
                        proof {
                            let first = if left.len() == 0 {
                                None
                            } else {
                                left[0]
                            };
                            assert(outcome@ == first);
                            assert(loaded_file(path@, first) == Err::<
                                (Seq<u8>, Seq<char>),
                                FileError,
                            >(fault));
                            assert(attached_parts(ahead, left) == Err::<
                                Seq<LoadedPartView>,
                                FileError,
                            >(fault));
                        }
                        return Err(fault);
                    },
                    Ok((content, file_name)) => {
                        let ghost next = LoadedPartView::File {
                            name: name@,
                            file_name: file_name@,
                            content: content@,
                        };
                        loaded.push(LoadedPart::File { name, file_name, content });
                        proof {
                            assert(left.len() > 0);
                            assert(loaded_parts_view(loaded@) =~= done.push(next));
                            if let Ok(rest) = attached_parts(ahead.skip(1), left.skip(1)) {
                                assert(done + (seq![next] + rest) =~= done.push(next) + rest);
                            }
                        }
                    },
                }
            },
        }
    }
    proof {
        assert(all.skip(all.len() as int) =~= Seq::<PartView>::empty());
        assert(loaded_parts_view(loaded@) + Seq::<LoadedPartView>::empty() =~= loaded_parts_view(
            loaded@,
        ));
    }
    Ok(loaded)
}

/// Makes the payload of a planned body from the outcomes of reading the
/// files that it needs, given in the order of `needed_files`. Outcomes
/// beyond those needed are ignored; one that is missing counts as a failure.
pub fn attach_files(plan: BodyPlan, reads: Vec<FileOutcome>) -> (encoded: Result<
    Payload,
    FileError,
>)
    ensures
        payload_view(encoded) == attached(plan@, outcomes_view(reads@)),
{
    match plan {
        BodyPlan::Empty => Ok(Payload::Empty),
        BodyPlan::Text(text) => Ok(Payload::Text(text)),
        BodyPlan::Form(pairs) => Ok(Payload::Form(pairs)),
        BodyPlan::Multipart(parts) => match attach_parts(parts, reads) {
            Ok(loaded) => Ok(Payload::Multipart(loaded)),
            Err(fault) => Err(fault),
        },
        BodyPlan::File(path) => {
            if reads.len() == 0 {
                return Err(FileError::Unreadable);
            }
            match &reads[0] {
                FileOutcome::Unreadable => Err(FileError::Unreadable),
                FileOutcome::Available(_) => Ok(Payload::File(path)),
            }
        },
    }
}

/// Encodes the declared body, given the outcomes of reading the files
/// that it needs: plans it, then attaches the files.
pub fn encode_body(body: &ContentType, env: &Environment, reads: Vec<FileOutcome>) -> (encoded:
    Result<Payload, FileError>)
    ensures
        payload_view(encoded) == attached(planned_body(body@, env@), outcomes_view(reads@)),
{
    attach_files(plan_body(body, env), reads)
}

/// The mathematical content of a list of strings.
pub open spec fn texts_view(texts: Seq<String>) -> Seq<Seq<char>> {
    texts.map_values(|t: String| t@)
}

impl BodyPlan {
    /// The paths of the files to read before the body can be sent, in the
    /// order in which `attach_files` expects their outcomes.
    pub fn file_paths(&self) -> (paths: Vec<String>)
        ensures
            texts_view(paths@) == needed_files(self@),
    {
        let mut paths: Vec<String> = Vec::new();
        proof {
            assert(texts_view(paths@) =~= Seq::<Seq<char>>::empty());
        }
        match self {
            BodyPlan::Multipart(parts) => {
                let ghost all = parts_view(parts@);
                let mut i: usize = 0;
                proof {
                    assert(all.skip(0) =~= all);
                    assert(texts_view(paths@) + part_paths(all) =~= part_paths(all));
                }
                while i < parts.len()
                    invariant
                        i <= parts.len(),
                        all == parts_view(parts@),
                        texts_view(paths@) + part_paths(all.skip(i as int)) == part_paths(all),
                    decreases parts.len() - i,
                {
                    let ghost done = texts_view(paths@);
                    let ghost ahead = all.skip(i as int);
                    proof {
                        assert(ahead[0] == parts@[i as int]@);
                        assert(ahead.skip(1) =~= all.skip(i + 1));
                    }
                    match &parts[i] {
                        Part::Text { .. } => {},
                        Part::File { name, path } => {
                            paths.push(path.clone());
                            proof {
                                assert(texts_view(paths@) =~= done.push(path@));
                                assert(done + (seq![path@] + part_paths(ahead.skip(1)))
                                    =~= done.push(path@) + part_paths(ahead.skip(1)));
                            }
                        },
                    }
                    i += 1;
                }
                proof {
                    assert(all.skip(all.len() as int) =~= Seq::<PartView>::empty());
                    assert(texts_view(paths@) + Seq::<Seq<char>>::empty() =~= texts_view(paths@));
                }
            },
            BodyPlan::File(path) => {
                paths.push(path.clone());
                proof {
                    assert(texts_view(paths@) =~= seq![path@]);
                }
            },
            _ => {},
        }
        paths
    }
}

/// Whether the outcome at position `at` of `reads` lets the file at `path`
/// be attached.
pub open spec fn file_at_hand(path: Seq<char>, reads: Seq<Option<Seq<u8>>>, at: int) -> bool {
    &&& 0 <= at < reads.len()
    &&& reads[at] is Some
    &&& crate::files::file_name(path) is Some
}

/// Whether every file of `paths` is at hand: read without failure, under a
/// path that names a file.
pub open spec fn all_at_hand(paths: Seq<Seq<char>>, reads: Seq<Option<Seq<u8>>>) -> bool {
    forall|k: int| 0 <= k < paths.len() ==> file_at_hand(#[trigger] paths[k], reads, k)
}

proof fn lemma_all_at_hand_step(
    path: Seq<char>,
    later_paths: Seq<Seq<char>>,
    reads: Seq<Option<Seq<u8>>>,
)
    requires
        reads.len() > 0,
    ensures
        all_at_hand(seq![path] + later_paths, reads) <==> file_at_hand(path, reads, 0)
            && all_at_hand(later_paths, reads.skip(1)),
{
    let paths = seq![path] + later_paths;
    let later = reads.skip(1);
    if all_at_hand(paths, reads) {
        assert(file_at_hand(paths[0], reads, 0));
        assert forall|k: int| 0 <= k < later_paths.len() implies file_at_hand(
            #[trigger] later_paths[k],
            later,
            k,
        ) by {
            assert(file_at_hand(paths[k + 1], reads, k + 1));
            assert(later[k] == reads[k + 1]);
        }
    }
    if file_at_hand(path, reads, 0) && all_at_hand(later_paths, later) {
        assert forall|k: int| 0 <= k < paths.len() implies file_at_hand(
            #[trigger] paths[k],
            reads,
            k,
        ) by {
            if k > 0 {
                assert(file_at_hand(later_paths[k - 1], later, k - 1));
                assert(later[k - 1] == reads[k]);
            }
        }
    }
}

/// Attaching succeeds exactly where every file that the parts need is at
/// hand.
pub proof fn lemma_attached_parts_succeed(parts: Seq<PartView>, reads: Seq<Option<Seq<u8>>>)
    ensures
        attached_parts(parts, reads) is Ok <==> all_at_hand(part_paths(parts), reads),
    decreases parts.len(),
{
    if parts.len() > 0 {
        let rest = parts.skip(1);
        match parts[0] {
            PartView::Text { .. } => {
                lemma_attached_parts_succeed(rest, reads);
            },
            PartView::File { name, path } => {
                let paths = part_paths(parts);
                assert(paths == seq![path] + part_paths(rest));
                if reads.len() == 0 {
                    assert(!file_at_hand(paths[0], reads, 0));
                } else {
                    lemma_attached_parts_succeed(rest, reads.skip(1));
                    lemma_all_at_hand_step(path, part_paths(rest), reads);
                }
            },
        }
    }
}

} // verus!
