//! The pages: the private copy of the public page that a workspace gets, and the
//! images and files that go to the public page.

use crate::actions::{
    action_views, append_steps, image_sync_args, own_path, own_step, sync_images, Action,
    ActionView,
};
use crate::info::TechniqueType;
use crate::paths::{
    contents, contents_of, join, joined, page_data_path, page_path, public_page_path,
    scenes_path, spec_page_data_path, spec_page_path, spec_public_page_path, spec_scenes_path,
    spec_tech_workspace_path, tech_published_wp_path, tech_results_path, Environment,
};
use crate::staging::{published_views, steps_option_view, Published, PublishedView};
use crate::text::{same, texts};
use crate::utils::{parent, parent_of, relative_from, relative_path};
use crate::workspace as wp;
use vstd::prelude::*;
use vstd::string::*;

verus! {

/// The step that copies the images of a results directory to a page. The two
/// directories are named by what they hold.
pub open spec fn image_step(src: Seq<char>, dest: Seq<char>, ignore_existing: bool) -> ActionView {
    ActionView::Run {
        program: "rsync"@,
        args: image_sync_args(contents_of(src), contents_of(dest), ignore_existing),
    }
}

/// Exports the result images of one workspace: from `src`, the results of the
/// workspace, to `dest`, the directory of the technique on a page. Images that are
/// already at the destination are left alone where asked.
pub fn export_technique_images(src: &str, dest: &str, ignore_existing: bool) -> (step: Action)
    ensures
        step@ == image_step(src@, dest@, ignore_existing),
{
    sync_images(contents(src).as_str(), contents(dest).as_str(), ignore_existing)
}

/// The step that exports the images of a published workspace to the public page.
#[verifier::opaque]
pub open spec fn public_image_step(root: Seq<char>, p: PublishedView) -> ActionView {
    image_step(
        joined(spec_tech_workspace_path(root, p.group, p.id, p.uuid), "results"@),
        spec_page_data_path(spec_public_page_path(root), p.group, p.short_name),
        false,
    )
}

/// The steps that export the images of every published workspace to the public page.
pub open spec fn public_image_steps(root: Seq<char>, published: Seq<PublishedView>) -> Seq<
    ActionView,
> {
    published.map_values(|p: PublishedView| public_image_step(root, p))
}

/// Exports the result images of all published techniques to the public page. Images
/// published before are overwritten.
pub fn export_images(root: &str, published: &Vec<Published>) -> (steps: Vec<Action>)
    ensures
        action_views(steps@) == public_image_steps(root@, published_views(published@)),
{
    let mut steps: Vec<Action> = Vec::new();
    let mut i: usize = 0;
    let ghost all = public_image_steps(root@, published_views(published@));
    while i < published.len()
        invariant
            i <= published.len(),
            all == public_image_steps(root@, published_views(published@)),
            action_views(steps@) == all.take(i as int),
        decreases published.len() - i,
    {
        let p = &published[i];
        let ghost before = action_views(steps@);
        let step = export_technique_images(
            tech_results_path(root, p.group, p.id, p.uuid.as_str()).as_str(),
            page_data_path(public_page_path(root).as_str(), p.group, p.short_name.as_str()).as_str(),
            false,
        );
        proof {
            reveal(public_image_step);
        }
        steps.push(step);
        assert(action_views(steps@) =~= before.push(step@));
        i += 1;
        assert(action_views(steps@) =~= all.take(i as int));
    }
    assert(all.take(i as int) =~= all);
    steps
}

/// The step that hands the public page to the user and group of the web server.
pub open spec fn permission_step(user: Seq<char>, group: Seq<char>, root: Seq<char>)
    -> ActionView {
    own_step(user, group, spec_public_page_path(root))
}

/// Hands the public page, with all it holds, to the user and group of the web server.
pub fn set_public_page_permissions(env: &Environment) -> (step: Action)
    ensures
        step@ == permission_step(env.www_user@, env.www_group@, env.data_root@),
{
    own_path(
        env.www_user.as_str(),
        env.www_group.as_str(),
        public_page_path(env.data_root.as_str()).as_str(),
    )
}

/// The steps that take a technique off the public page: its `published` link goes,
/// then its results on the page; the state is stored; and the data files of the page
/// are written anew.
#[verifier::opaque]
pub open spec fn unpublish_steps(
    root: Seq<char>,
    group: TechniqueType,
    id: int,
    short_name: Seq<char>,
) -> Seq<ActionView> {
    seq![
        ActionView::RemoveFile(spec_tech_workspace_path(root, group, id, "published"@)),
        ActionView::RemoveDirAll(spec_page_data_path(spec_public_page_path(root), group, short_name)),
        ActionView::Commit,
        ActionView::ExportPage { page: spec_public_page_path(root), workspace: None },
    ]
}

/// Takes a technique off the public page, once its published workspace was marked as
/// finished in the registry. `short_name` is the name under which the technique was
/// installed in that workspace.
pub fn unpublish_technique(root: &str, group: TechniqueType, id: i32, short_name: &str) -> (steps:
    Vec<Action>)
    ensures
        action_views(steps@) == unpublish_steps(root@, group, id as int, short_name@),
{
    reveal(unpublish_steps);
    let public = public_page_path(root);
    let mut steps: Vec<Action> = Vec::new();
    steps.push(Action::RemoveFile(tech_published_wp_path(root, group, id)));
    steps.push(Action::RemoveDirAll(page_data_path(public.as_str(), group, short_name)));
    steps.push(Action::Commit);
    steps.push(Action::ExportPage { page: public, workspace: None });
    assert(action_views(steps@) =~= unpublish_steps(root@, group, id as int, short_name@));
    steps
}

/// The link to one technique of the public page from the private page `dest`.
pub open spec fn technique_link(root: Seq<char>, dest: Seq<char>, group: TechniqueType, name: Seq<
    char,
>) -> Option<ActionView> {
    let here = joined(joined(dest, "data"@), group.spec_as_str());
    match relative_path(spec_page_data_path(spec_public_page_path(root), group, name), here) {
        Some(target) => Some(ActionView::Symlink { target, link: joined(here, name) }),
        None => None,
    }
}

/// The links to the first `count` techniques of the group on the public page, but for
/// the one named `ignored`; none where one of them cannot be written.
pub open spec fn technique_links(
    root: Seq<char>,
    dest: Seq<char>,
    group: TechniqueType,
    ignored: Seq<char>,
    names: Seq<Seq<char>>,
    count: int,
) -> Option<Seq<ActionView>>
    decreases count,
{
    if count <= 0 {
        Some(Seq::empty())
    } else {
        match technique_links(root, dest, group, ignored, names, count - 1) {
            None => None,
            Some(before) => if names[count - 1] == ignored {
                Some(before)
            } else {
                match technique_link(root, dest, group, names[count - 1]) {
                    Some(link) => Some(before.push(link)),
                    None => None,
                }
            },
        }
    }
}

/// The first steps of a private page: the files of the page template are copied,
/// without its links; the scenes of the public page are linked; the directory of the
/// own group is made; and the other group of the public page is linked as a whole.
#[verifier::opaque]
pub open spec fn private_page_head(root: Seq<char>, dest: Seq<char>, group: TechniqueType)
    -> Option<Seq<ActionView>> {
    let public = spec_public_page_path(root);
    let data = joined(dest, "data"@);
    let other = group.spec_opposite().spec_as_str();
    match (
        relative_path(joined(public, "scenes"@), dest),
        relative_path(joined(joined(public, "data"@), other), data),
    ) {
        (Some(scenes), Some(whole)) => Some(
            seq![
                ActionView::Run {
                    program: "rsync"@,
                    args: seq!["-a"@, "--no-links"@, contents_of(spec_page_path(root)), dest],
                },
                ActionView::Symlink { target: scenes, link: joined(dest, "scenes"@) },
                ActionView::CreateDirAll(joined(data, group.spec_as_str())),
                ActionView::Symlink { target: whole, link: joined(data, other) },
            ],
        ),
        _ => None,
    }
}

/// The steps that make the private page `dest` as a cheap copy of the public page:
/// the head, then a link to each technique of the own group on the public page but
/// for `ignored`, the technique whose new results the page is for. There are none
/// where `dest` exists already or a link cannot be written as a relative path.
pub open spec fn private_page_steps(
    root: Seq<char>,
    dest: Seq<char>,
    dest_exists: bool,
    group: TechniqueType,
    ignored: Seq<char>,
    names: Seq<Seq<char>>,
) -> Option<Seq<ActionView>> {
    if dest_exists {
        None
    } else {
        match (
            private_page_head(root, dest, group),
            technique_links(root, dest, group, ignored, names, names.len() as int),
        ) {
            (Some(head), Some(links)) => Some(head + links),
            _ => None,
        }
    }
}

fn page_head(root: &str, dest: &str, group: TechniqueType) -> (steps: Option<Vec<Action>>)
    ensures
        steps_option_view(steps) == private_page_head(root@, dest@, group),
{
    reveal(private_page_head);
    let public = public_page_path(root);
    let data = join(dest, "data");
    let other = group.opposite();
    let scenes = match relative_from(join(public.as_str(), "scenes").as_str(), dest) {
        Some(p) => p,
        None => {
            return None;
        },
    };
    let whole = match relative_from(
        join(join(public.as_str(), "data").as_str(), other.as_str()).as_str(),
        data.as_str(),
    ) {
        Some(p) => p,
        None => {
            return None;
        },
    };
    let mut args: Vec<String> = Vec::new();
    args.push(String::from_str("-a"));
    args.push(String::from_str("--no-links"));
    args.push(contents(page_path(root).as_str()));
    args.push(String::from_str(dest));
    assert(texts(args@) =~= seq!["-a"@, "--no-links"@, contents_of(spec_page_path(root@)), dest@]);
    let mut steps: Vec<Action> = Vec::new();
    steps.push(Action::Run { program: String::from_str("rsync"), args });
    steps.push(Action::Symlink { target: scenes, link: join(dest, "scenes") });
    steps.push(Action::CreateDirAll(join(data.as_str(), group.as_str())));
    steps.push(Action::Symlink { target: whole, link: join(data.as_str(), other.as_str()) });
    assert(action_views(steps@) =~= private_page_head(root@, dest@, group)->0);
    Some(steps)
}

fn link_technique(root: &str, dest: &str, group: TechniqueType, name: &str) -> (step: Option<
    Action,
>)
    ensures
        match step {
            Some(step) => technique_link(root@, dest@, group, name@) == Some(step@),
            None => technique_link(root@, dest@, group, name@) is None,
        },
{
    let here = join(join(dest, "data").as_str(), group.as_str());
    let there = page_data_path(public_page_path(root).as_str(), group, name);
    match relative_from(there.as_str(), here.as_str()) {
        Some(target) => Some(Action::Symlink { target, link: join(here.as_str(), name) }),
        None => None,
    }
}

/// Plans a new page directory `dest` as a cheap copy of the public page: only the
/// files of the page itself are copied, the data is linked. The techniques of `group`
/// are linked one by one, those of the other group as a whole. `ignored_tech` gets no
/// link, and `names` are the techniques that the public page holds of `group`.
pub fn copy_public_page(
    root: &str,
    dest: &str,
    dest_exists: bool,
    group: TechniqueType,
    ignored_tech: &str,
    names: &Vec<String>,
) -> (steps: Option<Vec<Action>>)
    ensures
        steps_option_view(steps) == private_page_steps(
            root@,
            dest@,
            dest_exists,
            group,
            ignored_tech@,
            texts(names@),
        ),
{
    if dest_exists {
        return None;
    }
    let mut steps = match page_head(root, dest, group) {
        Some(steps) => steps,
        None => {
            return None;
        },
    };
    let ghost head = action_views(steps@);
    let mut i: usize = 0;
    assert(action_views(steps@) =~= head + Seq::<ActionView>::empty());
    while i < names.len()
        invariant
            i <= names.len(),
            technique_links(root@, dest@, group, ignored_tech@, texts(names@), i as int) is Some,
            action_views(steps@) == head + technique_links(
                root@,
                dest@,
                group,
                ignored_tech@,
                texts(names@),
                i as int,
            )->0,
        decreases names.len() - i,
    {
        let ghost before = action_views(steps@);
        let ghost linked = technique_links(
            root@,
            dest@,
            group,
            ignored_tech@,
            texts(names@),
            i as int,
        )->0;
        if !same(names[i].as_str(), ignored_tech) {
            match link_technique(root, dest, group, names[i].as_str()) {
                Some(step) => {
                    steps.push(step);
                    assert(action_views(steps@) =~= before.push(step@));
                    assert(action_views(steps@) =~= head + linked.push(step@));
                },
                None => {
                    proof {
                        lemma_links_fail(
                            root@,
                            dest@,
                            group,
                            ignored_tech@,
                            texts(names@),
                            i + 1,
                            names.len() as int,
                        );
                    }
                    return None;
                },
            }
        }
        i += 1;
    }
    Some(steps)
}

/// Where the first links cannot be written, neither can more of them.
proof fn lemma_links_fail(
    root: Seq<char>,
    dest: Seq<char>,
    group: TechniqueType,
    ignored: Seq<char>,
    names: Seq<Seq<char>>,
    count: int,
    more: int,
)
    requires
        0 <= count <= more,
        technique_links(root, dest, group, ignored, names, count) is None,
    ensures
        technique_links(root, dest, group, ignored, names, more) is None,
    decreases more - count,
{
    if count < more {
        lemma_links_fail(root, dest, group, ignored, names, count, more - 1);
    }
}

/// The steps that copy the reference images of a scene to the public page: the
/// directory of the reference image is made under the scenes of the page, then the
/// PNG and the thumbnail are copied. There are none where the reference image lies in
/// no directory.
#[verifier::opaque]
pub open spec fn scene_image_steps(root: Seq<char>, s: wp::SceneView) -> Option<Seq<ActionView>> {
    let public = joined(spec_public_page_path(root), "scenes"@);
    match parent_of(joined(public, s.ref_img)) {
        None => None,
        Some(dir) => Some(
            seq![
                ActionView::CreateDirAll(dir),
                ActionView::CopyFile {
                    src: joined(spec_scenes_path(root), s.png),
                    dest: joined(public, s.png),
                },
                ActionView::CopyFile {
                    src: joined(spec_scenes_path(root), s.thumb),
                    dest: joined(public, s.thumb),
                },
            ],
        ),
    }
}

/// The steps for the first `count` scenes of a list.
pub open spec fn scenes_image_steps(root: Seq<char>, scenes: Seq<wp::SceneView>, count: int)
    -> Option<Seq<ActionView>>
    decreases count,
{
    if count <= 0 {
        Some(Seq::empty())
    } else {
        match (
            scenes_image_steps(root, scenes, count - 1),
            scene_image_steps(root, scenes[count - 1]),
        ) {
            (Some(before), Some(last)) => Some(before + last),
            _ => None,
        }
    }
}

/// The steps for the scenes of the first `count` renderers.
pub open spec fn corpus_image_steps(root: Seq<char>, corpus: Seq<wp::RendererView>, count: int)
    -> Option<Seq<ActionView>>
    decreases count,
{
    if count <= 0 {
        Some(Seq::empty())
    } else {
        match (
            corpus_image_steps(root, corpus, count - 1),
            scenes_image_steps(
                root,
                corpus[count - 1].scenes,
                corpus[count - 1].scenes.len() as int,
            ),
        ) {
            (Some(before), Some(last)) => Some(before + last),
            _ => None,
        }
    }
}

/// The steps that copy the reference images of the whole corpus to the public page.
pub open spec fn reference_image_steps(root: Seq<char>, corpus: Seq<wp::RendererView>) -> Option<
    Seq<ActionView>,
> {
    match corpus_image_steps(root, corpus, corpus.len() as int) {
        Some(steps) => Some(
            seq![ActionView::CreateDirAll(joined(spec_public_page_path(root), "scenes"@))] + steps,
        ),
        None => None,
    }
}

fn scene_images(root: &str, s: &wp::Scene) -> (steps: Option<Vec<Action>>)
    ensures
        steps_option_view(steps) == scene_image_steps(root@, s@),
{
    reveal(scene_image_steps);
    let public = join(public_page_path(root).as_str(), "scenes");
    let scenes = scenes_path(root);
    let dir = match parent(join(public.as_str(), s.ref_img.as_str()).as_str()) {
        Some(dir) => dir,
        None => {
            return None;
        },
    };
    let mut steps: Vec<Action> = Vec::new();
    steps.push(Action::CreateDirAll(dir));
    steps.push(
        Action::CopyFile {
            src: join(scenes.as_str(), s.png.as_str()),
            dest: join(public.as_str(), s.png.as_str()),
        },
    );
    steps.push(
        Action::CopyFile {
            src: join(scenes.as_str(), s.thumb.as_str()),
            dest: join(public.as_str(), s.thumb.as_str()),
        },
    );
    assert(action_views(steps@) =~= scene_image_steps(root@, s@)->0);
    Some(steps)
}

fn renderer_images(root: &str, r: &wp::Renderer, steps: &mut Vec<Action>) -> (complete: bool)
    ensures
        match scenes_image_steps(root@, r@.scenes, r@.scenes.len() as int) {
            Some(more) => complete && action_views(final(steps)@) == action_views(old(steps)@)
                + more,
            None => !complete,
        },
{
    let ghost given = action_views(steps@);
    let mut k: usize = 0;
    assert(action_views(steps@) =~= given + Seq::<ActionView>::empty());
    while k < r.scenes.len()
        invariant
            k <= r.scenes.len(),
            scenes_image_steps(root@, r@.scenes, k as int) is Some,
            action_views(steps@) == given + scenes_image_steps(root@, r@.scenes, k as int)->0,
        decreases r.scenes.len() - k,
    {
        let ghost listed = scenes_image_steps(root@, r@.scenes, k as int)->0;
        match scene_images(root, &r.scenes[k]) {
            None => {
                proof {
                    lemma_scene_steps_fail(root@, r@.scenes, k + 1, r@.scenes.len() as int);
                }
                return false;
            },
            Some(more) => {
                let ghost added = action_views(more@);
                append_steps(steps, more);
                assert(action_views(steps@) =~= given + (listed + added));
            },
        }
        k += 1;
    }
    true
}

/// Where the steps for the first scenes cannot be written, neither can those for more.
proof fn lemma_scene_steps_fail(
    root: Seq<char>,
    scenes: Seq<wp::SceneView>,
    count: int,
    more: int,
)
    requires
        0 <= count <= more,
        scenes_image_steps(root, scenes, count) is None,
    ensures
        scenes_image_steps(root, scenes, more) is None,
    decreases more - count,
{
    if count < more {
        lemma_scene_steps_fail(root, scenes, count, more - 1);
    }
}

/// Where the steps for the first renderers cannot be written, neither can those for
/// more.
proof fn lemma_corpus_steps_fail(
    root: Seq<char>,
    corpus: Seq<wp::RendererView>,
    count: int,
    more: int,
)
    requires
        0 <= count <= more,
        corpus_image_steps(root, corpus, count) is None,
    ensures
        corpus_image_steps(root, corpus, more) is None,
    decreases more - count,
{
    if count < more {
        lemma_corpus_steps_fail(root, corpus, count, more - 1);
    }
}

/// Plans the copy of all reference images of the corpus, PNG and thumbnail, to the
/// scenes directory of the public page. There is no plan where a reference image lies
/// in no directory.
pub fn export_reference_images(root: &str, workspace: &wp::Workspace) -> (steps: Option<
    Vec<Action>,
>)
    ensures
        steps_option_view(steps) == reference_image_steps(root@, workspace@.renderers),
{
    let corpus = workspace.renderers();
    let ghost all = wp::renderer_views(corpus@);
    let mut steps: Vec<Action> = Vec::new();
    steps.push(Action::CreateDirAll(join(public_page_path(root).as_str(), "scenes")));
    let ghost head = action_views(steps@);
    assert(head =~= seq![
        ActionView::CreateDirAll(joined(spec_public_page_path(root@), "scenes"@)),
    ]);
    let mut i: usize = 0;
    assert(action_views(steps@) =~= head + Seq::<ActionView>::empty());
    while i < corpus.len()
        invariant
            i <= corpus.len(),
            all == wp::renderer_views(corpus@),
            all == workspace@.renderers,
            corpus_image_steps(root@, all, i as int) is Some,
            action_views(steps@) == head + corpus_image_steps(root@, all, i as int)->0,
        decreases corpus.len() - i,
    {
        let ghost listed = corpus_image_steps(root@, all, i as int)->0;
        let ghost before = action_views(steps@);
        if !renderer_images(root, &corpus[i], &mut steps) {
            proof {
                assert(all[i as int] == corpus@[i as int]@);
                assert(corpus_image_steps(root@, all, i + 1) is None);
                lemma_corpus_steps_fail(root@, all, i + 1, corpus.len() as int);
                assert(all.len() == corpus.len());
                assert(workspace@.renderers == all);
            }
            return None;
        }
        proof {
            let more = scenes_image_steps(
                root@,
                all[i as int].scenes,
                all[i as int].scenes.len() as int,
            )->0;
            assert(action_views(steps@) == before + more);
            assert(action_views(steps@) =~= head + (listed + more));
        }
        i += 1;
    }
    assert(all.len() == corpus.len());
    Some(steps)
}

} // verus!
