//! The scratch workspace: how it is set up for a run, and how what a run left in it
//! is saved.

use crate::actions::{
    action_views, append_steps, move_path, move_step, sync_path, sync_step, Action, ActionView,
};
use crate::config::{fbksd_config, fbksd_config_args_of, gen_config, generated, Config, ConfigView};
use crate::corpus::{corpus_names, missing, missing_scenes};
use crate::info::TechniqueType;
use crate::page::ints;
use crate::paths::{
    contents, contents_of, iqa_path, join, joined, renderers_path, scenes_path,
    spec_iqa_path, spec_renderers_path, spec_scenes_path, spec_tech_workspace_path,
    spec_tmp_install_path, spec_tmp_results_path, spec_tmp_workspace_path, tech_install_path,
    tech_results_path, tmp_install_path, tmp_results_path, tmp_workspace_path,
};
use crate::text::texts;
use crate::utils::{relative_from, relative_path};
use crate::workspace as wp;
use vstd::prelude::*;
use vstd::string::*;

verus! {

/// A published workspace: its technique, its uuid, and the short name under which the
/// technique was installed in it.
#[derive(Debug)]
pub struct Published {
    pub group: TechniqueType,
    pub id: i32,
    pub uuid: String,
    pub short_name: String,
}

/// Mathematical content of a `Published`.
pub ghost struct PublishedView {
    pub group: TechniqueType,
    pub id: int,
    pub uuid: Seq<char>,
    pub short_name: Seq<char>,
}

impl View for Published {
    type V = PublishedView;

    open spec fn view(&self) -> PublishedView {
        PublishedView {
            group: self.group,
            id: self.id as int,
            uuid: self.uuid@,
            short_name: self.short_name@,
        }
    }
}

/// The content of each entry.
pub open spec fn published_views(list: Seq<Published>) -> Seq<PublishedView> {
    list.map_values(|p: Published| p@)
}

/// The step that brings what `src` holds to `dest`: a move, or a copy that leaves
/// alone what is already there.
pub open spec fn transfer_step(src: Seq<char>, dest: Seq<char>, mv: bool) -> ActionView {
    if mv {
        move_step(src, dest)
    } else {
        sync_step(src, dest, true)
    }
}

fn transfer(src: &str, dest: &str, mv: bool) -> (step: Action)
    ensures
        step@ == transfer_step(src@, dest@, mv),
{
    if mv {
        move_path(src, dest)
    } else {
        sync_path(src, dest, true)
    }
}

/// The steps that save what a technique left in the scratch workspace: its results,
/// found there under `name`, go to the results of its workspace, and where asked its
/// binaries go to the binaries of its workspace.
#[verifier::opaque]
pub open spec fn save_technique_steps(
    root: Seq<char>,
    p: PublishedView,
    include_install: bool,
    mv: bool,
) -> Seq<ActionView> {
    let workspace = spec_tech_workspace_path(root, p.group, p.id, p.uuid);
    let results = transfer_step(
        contents_of(spec_tmp_results_path(root, p.group, p.short_name)),
        contents_of(joined(workspace, "results"@)),
        mv,
    );
    if include_install {
        seq![
            results,
            transfer_step(
                contents_of(spec_tmp_install_path(root, p.group, p.id)),
                contents_of(joined(workspace, "install"@)),
                mv,
            ),
        ]
    } else {
        seq![results]
    }
}

/// Saves technique data from the scratch workspace to its permanent place. The data
/// is moved, or copied without touching what is already there, and may include the
/// binaries beside the results. `p.short_name` is the name under which the technique
/// stands in the scratch workspace.
pub fn save_technique_tmp_workspace(root: &str, p: &Published, include_install: bool, mv: bool)
    -> (steps: Vec<Action>)
    ensures
        action_views(steps@) == save_technique_steps(root@, p@, include_install, mv),
{
    reveal(save_technique_steps);
    let mut steps: Vec<Action> = Vec::new();
    let src = contents(tmp_results_path(root, p.group, p.short_name.as_str()).as_str());
    let dest = contents(tech_results_path(root, p.group, p.id, p.uuid.as_str()).as_str());
    steps.push(transfer(src.as_str(), dest.as_str(), mv));
    if include_install {
        let src = contents(tmp_install_path(root, p.group, p.id).as_str());
        let dest = contents(tech_install_path(root, p.group, p.id, p.uuid.as_str()).as_str());
        steps.push(transfer(src.as_str(), dest.as_str(), mv));
    }
    assert(action_views(steps@) =~= save_technique_steps(root@, p@, include_install, mv));
    steps
}

/// The steps that save the first `count` techniques, one technique after the other.
pub open spec fn save_steps(
    root: Seq<char>,
    published: Seq<PublishedView>,
    include_install: bool,
    mv: bool,
    count: int,
) -> Seq<ActionView>
    decreases count,
{
    if count <= 0 {
        Seq::empty()
    } else {
        save_steps(root, published, include_install, mv, count - 1) + save_technique_steps(
            root,
            published[count - 1],
            include_install,
            mv,
        )
    }
}

/// Saves data from the scratch workspace to its permanent place for all published
/// techniques; nothing is to be done where there is no scratch workspace.
pub fn save_tmp_workspace(
    root: &str,
    tmp_exists: bool,
    published: &Vec<Published>,
    include_install: bool,
    mv: bool,
) -> (steps: Vec<Action>)
    ensures
        action_views(steps@) == if tmp_exists {
            save_steps(
                root@,
                published_views(published@),
                include_install,
                mv,
                published.len() as int,
            )
        } else {
            Seq::empty()
        },
{
    let mut steps: Vec<Action> = Vec::new();
    assert(action_views(steps@) =~= Seq::<ActionView>::empty());
    if !tmp_exists {
        return steps;
    }
    let mut i: usize = 0;
    while i < published.len()
        invariant
            i <= published.len(),
            action_views(steps@) == save_steps(
                root@,
                published_views(published@),
                include_install,
                mv,
                i as int,
            ),
        decreases published.len() - i,
    {
        let ghost before = action_views(steps@);
        let more = save_technique_tmp_workspace(root, &published[i], include_install, mv);
        append_steps(&mut steps, more);
        assert(action_views(steps@) == before + save_technique_steps(
            root@,
            published_views(published@)[i as int],
            include_install,
            mv,
        ));
        i += 1;
    }
    steps
}

/// The steps that bring a published technique into the scratch workspace: its
/// binaries under its group and id, its results under its group and short name.
#[verifier::opaque]
pub open spec fn stage_steps(root: Seq<char>, p: PublishedView) -> Seq<ActionView> {
    let workspace = spec_tech_workspace_path(root, p.group, p.id, p.uuid);
    seq![
        sync_step(
            contents_of(joined(workspace, "install"@)),
            spec_tmp_install_path(root, p.group, p.id),
            false,
        ),
        sync_step(
            contents_of(joined(workspace, "results"@)),
            spec_tmp_results_path(root, p.group, p.short_name),
            false,
        ),
    ]
}

/// The steps that bring the first `count` published techniques into the scratch
/// workspace.
pub open spec fn stage_all_steps(root: Seq<char>, published: Seq<PublishedView>, count: int)
    -> Seq<ActionView>
    decreases count,
{
    if count <= 0 {
        Seq::empty()
    } else {
        stage_all_steps(root, published, count - 1) + stage_steps(root, published[count - 1])
    }
}

/// The steps that set up the scratch workspace anew: wipe it, link the renderers,
/// have `fbksd` initialise it, bring in the published techniques where asked, and have
/// `fbksd` write a configuration for all scenes at the given sample budgets.
pub open spec fn tmp_workspace_steps(
    root: Seq<char>,
    include_published: bool,
    published: Seq<PublishedView>,
    spps: Seq<int>,
) -> Seq<ActionView> {
    let tmp = spec_tmp_workspace_path(root);
    let head = seq![
        ActionView::RemoveDirAllIfPresent(tmp),
        ActionView::CreateDirAll(tmp),
        ActionView::Symlink { target: spec_renderers_path(root), link: joined(tmp, "renderers"@) },
        ActionView::RunIn {
            dir: tmp,
            program: "fbksd"@,
            args: seq!["init"@, "--scenes-dir"@, spec_scenes_path(root)],
        },
    ];
    let staged = if include_published {
        seq![
            ActionView::CreateDirAll(
                joined(joined(tmp, "results/.current"@), TechniqueType::DENOISER.spec_as_str()),
            ),
            ActionView::CreateDirAll(
                joined(joined(tmp, "results/.current"@), TechniqueType::SAMPLER.spec_as_str()),
            ),
        ] + stage_all_steps(root, published, published.len() as int)
    } else {
        Seq::empty()
    };
    head + staged + seq![
        ActionView::RunIn { dir: tmp, program: "fbksd"@, args: fbksd_config_args_of(spps) },
    ]
}

fn stage_technique(root: &str, p: &Published) -> (steps: Vec<Action>)
    ensures
        action_views(steps@) == stage_steps(root@, p@),
{
    reveal(stage_steps);
    let mut steps: Vec<Action> = Vec::new();
    let install = contents(tech_install_path(root, p.group, p.id, p.uuid.as_str()).as_str());
    let results = contents(tech_results_path(root, p.group, p.id, p.uuid.as_str()).as_str());
    steps.push(sync_path(install.as_str(), tmp_install_path(root, p.group, p.id).as_str(), false));
    steps.push(
        sync_path(
            results.as_str(),
            tmp_results_path(root, p.group, p.short_name.as_str()).as_str(),
            false,
        ),
    );
    assert(action_views(steps@) =~= stage_steps(root@, p@));
    steps
}

/// Creates a new scratch workspace configured with all scenes, with the published
/// techniques in it where asked.
pub fn create_tmp_workspace(
    root: &str,
    include_published: bool,
    published: &Vec<Published>,
    spps: &[i32],
) -> (steps: Vec<Action>)
    ensures
        action_views(steps@) == tmp_workspace_steps(
            root@,
            include_published,
            published_views(published@),
            ints(spps@),
        ),
{
    let tmp = tmp_workspace_path(root);
    let mut steps: Vec<Action> = Vec::new();
    steps.push(Action::RemoveDirAllIfPresent(tmp.clone()));
    steps.push(Action::CreateDirAll(tmp.clone()));
    steps.push(
        Action::Symlink { target: renderers_path(root), link: join(tmp.as_str(), "renderers") },
    );
    let mut init_args: Vec<String> = Vec::new();
    init_args.push(String::from_str("init"));
    init_args.push(String::from_str("--scenes-dir"));
    init_args.push(scenes_path(root));
    assert(texts(init_args@) =~= seq!["init"@, "--scenes-dir"@, spec_scenes_path(root@)]);
    steps.push(
        Action::RunIn { dir: tmp.clone(), program: String::from_str("fbksd"), args: init_args },
    );
    let ghost head = action_views(steps@);
    assert(head =~= seq![
        ActionView::RemoveDirAllIfPresent(tmp@),
        ActionView::CreateDirAll(tmp@),
        ActionView::Symlink { target: spec_renderers_path(root@), link: joined(tmp@, "renderers"@) },
        ActionView::RunIn {
            dir: tmp@,
            program: "fbksd"@,
            args: seq!["init"@, "--scenes-dir"@, spec_scenes_path(root@)],
        },
    ]);
    let ghost staged = Seq::<ActionView>::empty();
    if include_published {
        let current = join(tmp.as_str(), "results/.current");
        steps.push(Action::CreateDirAll(join(current.as_str(), "denoisers")));
        steps.push(Action::CreateDirAll(join(current.as_str(), "samplers")));
        let ghost dirs = seq![
            ActionView::CreateDirAll(
                joined(joined(tmp@, "results/.current"@), TechniqueType::DENOISER.spec_as_str()),
            ),
            ActionView::CreateDirAll(
                joined(joined(tmp@, "results/.current"@), TechniqueType::SAMPLER.spec_as_str()),
            ),
        ];
        let ghost prefix = action_views(steps@);
        assert(prefix =~= head + dirs);
        assert(action_views(steps@) =~= prefix + stage_all_steps(
            root@,
            published_views(published@),
            0,
        ));
        let mut i: usize = 0;
        while i < published.len()
            invariant
                i <= published.len(),
                action_views(steps@) == prefix + stage_all_steps(
                    root@,
                    published_views(published@),
                    i as int,
                ),
            decreases published.len() - i,
        {
            let more = stage_technique(root, &published[i]);
            append_steps(&mut steps, more);
            i += 1;
            assert(action_views(steps@) =~= prefix + stage_all_steps(
                root@,
                published_views(published@),
                i as int,
            ));
        }
        proof {
            staged = dirs + stage_all_steps(
                root@,
                published_views(published@),
                published.len() as int,
            );
        }
    }
    assert(action_views(steps@) =~= head + staged);
    let ghost before = action_views(steps@);
    let last = Action::RunIn {
        dir: tmp,
        program: String::from_str("fbksd"),
        args: fbksd_config(spps),
    };
    steps.push(last);
    assert(action_views(steps@) =~= before + seq![last@]);
    steps
}

/// The steps that lay out a workspace under `path` for the given configuration: the
/// links to the scenes, the renderers and the metrics, written relative to `path`; the
/// directories of a workspace; and the configuration as the current one. There are
/// none where `path` cannot be left for one of the three directories by a relative path.
pub open spec fn config_steps_of(root: Seq<char>, path: Seq<char>, config: ConfigView) -> Option<
    Seq<ActionView>,
> {
    match (
        relative_path(spec_scenes_path(root), path),
        relative_path(spec_renderers_path(root), path),
        relative_path(spec_iqa_path(root), path),
    ) {
        (Some(scenes), Some(renderers), Some(iqa)) => Some(
            seq![
                ActionView::Symlink { target: scenes, link: joined(path, "scenes"@) },
                ActionView::Symlink { target: renderers, link: joined(path, "renderers"@) },
                ActionView::Symlink { target: iqa, link: joined(path, "iqa"@) },
                ActionView::CreateDir(joined(path, "denoisers"@)),
                ActionView::CreateDir(joined(path, "samplers"@)),
                ActionView::CreateDir(joined(path, "configs"@)),
                ActionView::CreateDirAll(joined(path, "results/Results 1"@)),
                ActionView::Symlink {
                    target: "Results 1"@,
                    link: joined(path, "results/.current"@),
                },
                ActionView::WriteConfig { path: joined(path, "configs/all.json"@), config },
                ActionView::Symlink {
                    target: "all.json"@,
                    link: joined(path, "configs/.current.json"@),
                },
            ],
        ),
        _ => None,
    }
}

/// The content of optional steps.
pub open spec fn steps_option_view(steps: Option<Vec<Action>>) -> Option<Seq<ActionView>> {
    match steps {
        Some(steps) => Some(action_views(steps@)),
        None => None,
    }
}

/// Lays out a workspace under `path` for the given configuration.
pub fn config_steps(root: &str, path: &str, config: Config) -> (steps: Option<Vec<Action>>)
    ensures
        steps_option_view(steps) == config_steps_of(root@, path@, config@),
{
    let scenes = match relative_from(scenes_path(root).as_str(), path) {
        Some(p) => p,
        None => {
            return None;
        },
    };
    let renderers = match relative_from(renderers_path(root).as_str(), path) {
        Some(p) => p,
        None => {
            return None;
        },
    };
    let iqa = match relative_from(iqa_path(root).as_str(), path) {
        Some(p) => p,
        None => {
            return None;
        },
    };
    let mut steps: Vec<Action> = Vec::new();
    steps.push(Action::Symlink { target: scenes, link: join(path, "scenes") });
    steps.push(Action::Symlink { target: renderers, link: join(path, "renderers") });
    steps.push(Action::Symlink { target: iqa, link: join(path, "iqa") });
    steps.push(Action::CreateDir(join(path, "denoisers")));
    steps.push(Action::CreateDir(join(path, "samplers")));
    steps.push(Action::CreateDir(join(path, "configs")));
    steps.push(Action::CreateDirAll(join(path, "results/Results 1")));
    steps.push(
        Action::Symlink {
            target: String::from_str("Results 1"),
            link: join(path, "results/.current"),
        },
    );
    steps.push(Action::WriteConfig { path: join(path, "configs/all.json"), config });
    steps.push(
        Action::Symlink {
            target: String::from_str("all.json"),
            link: join(path, "configs/.current.json"),
        },
    );
    assert(action_views(steps@) =~= config_steps_of(root@, path@, config@)->0);
    Some(steps)
}

/// The one technique as the denoisers or as the samplers of a configuration.
pub open spec fn only(group: TechniqueType, wanted: TechniqueType, name: Seq<char>) -> Seq<
    Seq<char>,
> {
    if group == wanted {
        seq![name]
    } else {
        Seq::empty()
    }
}

/// What setting up the scratch workspace for the missing scenes of a technique comes
/// to. The scratch workspace is wiped in any case. Where the technique has results for
/// every scene of the corpus, nothing more is done and the answer is no. Else the
/// workspace is laid out for a configuration that runs this technique alone on the
/// missing scenes, the binaries of the technique are copied in, and the answer is yes.
pub open spec fn tmp_technique_workspace(
    root: Seq<char>,
    group: TechniqueType,
    id: int,
    uuid: Seq<char>,
    tech: wp::TechniqueView,
    corpus: Seq<wp::RendererView>,
    spps: Seq<int>,
) -> Result<(bool, Seq<ActionView>), wp::Error> {
    let tmp = spec_tmp_workspace_path(root);
    let wipe = seq![ActionView::RemoveDirAllIfPresent(tmp), ActionView::CreateDirAll(tmp)];
    let scenes = missing(corpus_names(corpus), tech);
    if scenes.len() == 0 {
        Ok((false, wipe))
    } else {
        let config = generated(
            corpus,
            only(group, TechniqueType::DENOISER, tech.short_name),
            only(group, TechniqueType::SAMPLER, tech.short_name),
            scenes,
            spps,
        );
        match config_steps_of(root, tmp, config) {
            None => Err(wp::Error::Unspecified),
            Some(layout) => Ok(
                (
                    true,
                    wipe + layout + seq![
                        sync_step(
                            contents_of(
                                joined(spec_tech_workspace_path(root, group, id, uuid), "install"@),
                            ),
                            spec_tmp_install_path(root, group, id),
                            false,
                        ),
                    ],
                ),
            ),
        }
    }
}

/// The content of a result of `create_tmp_technique_workspace`.
pub open spec fn staged_view(r: Result<(bool, Vec<Action>), wp::Error>) -> Result<
    (bool, Seq<ActionView>),
    wp::Error,
> {
    match r {
        Ok(p) => Ok((p.0, action_views(p.1@))),
        Err(e) => Err(e),
    }
}

fn only_name(group: TechniqueType, wanted: TechniqueType, name: &str) -> (list: Vec<String>)
    ensures
        texts(list@) == only(group, wanted, name@),
{
    let mut list: Vec<String> = Vec::new();
    if group == wanted {
        list.push(String::from_str(name));
    }
    assert(texts(list@) =~= only(group, wanted, name@));
    list
}

/// Creates a scratch workspace for a technique with the scenes that it has no results
/// for yet. Gives `true` and the steps to take where there is such a scene, and
/// `false` where the technique has results for the whole corpus.
pub fn create_tmp_technique_workspace(
    root: &str,
    group: TechniqueType,
    id: i32,
    uuid: &str,
    tech: &wp::Technique,
    corpus: &Vec<wp::Renderer>,
    spps: &[i32],
) -> (r: Result<(bool, Vec<Action>), wp::Error>)
    ensures
        staged_view(r) == tmp_technique_workspace(
            root@,
            group,
            id as int,
            uuid@,
            tech@,
            wp::renderer_views(corpus@),
            ints(spps@),
        ),
{
    let tmp = tmp_workspace_path(root);
    let mut steps: Vec<Action> = Vec::new();
    steps.push(Action::RemoveDirAllIfPresent(tmp.clone()));
    steps.push(Action::CreateDirAll(tmp.clone()));
    let ghost wipe = action_views(steps@);
    assert(wipe =~= seq![
        ActionView::RemoveDirAllIfPresent(tmp@),
        ActionView::CreateDirAll(tmp@),
    ]);
    let scenes = missing_scenes(corpus, tech);
    if scenes.len() == 0 {
        return Ok((false, steps));
    }
    let config = gen_config(
        corpus,
        &only_name(group, TechniqueType::DENOISER, tech.short_name.as_str()),
        &only_name(group, TechniqueType::SAMPLER, tech.short_name.as_str()),
        &scenes,
        spps,
    );
    let layout = match config_steps(root, tmp.as_str(), config) {
        Some(layout) => layout,
        None => {
            return Err(wp::Error::Unspecified);
        },
    };
    let ghost laid = action_views(layout@);
    append_steps(&mut steps, layout);
    let copy = sync_path(
        contents(tech_install_path(root, group, id, uuid).as_str()).as_str(),
        tmp_install_path(root, group, id).as_str(),
        false,
    );
    let ghost before = action_views(steps@);
    steps.push(copy);
    assert(action_views(steps@) =~= wipe + laid + seq![copy@]);
    Ok((true, steps))
}

} // verus!
