//! The benchmark data in memory: the scene corpus, the metrics and the techniques with
//! their results, and the data files of the results page that follow from them.

use crate::info::TechniqueType;
use crate::page;
use crate::page::{scene_id_of, scene_named, MetricValue};
use crate::seqs::{last_index, lemma_last_index_step};
use crate::text::same;
use vstd::prelude::*;
use vstd::string::*;

verus! {

/// Why an operation on the benchmark data failed.
#[derive(Clone, Copy, Debug, PartialEq, Eq, Structural)]
pub enum Error {
    UuidNotFound,
    Unspecified,
}

impl Error {
    /// The text shown to a user for this error.
    pub fn message(&self) -> (text: &'static str)
        ensures
            text@ == (match self {
                Error::UuidNotFound => "uuid not found for the given technique"@,
                Error::Unspecified => "unspecified error"@,
            }),
    {
        match self {
            Error::UuidNotFound => "uuid not found for the given technique",
            Error::Unspecified => "unspecified error",
        }
    }
}

/// A scene of the corpus. Paths are relative to the scenes directory.
#[derive(Debug)]
pub struct Scene {
    pub name: String,
    pub path: String,
    /// The reference image, written `ref-img` in the scene files.
    pub ref_img: String,
    /// Where the scene comes from, written `ref` in the scene files.
    pub citation: String,
    /// The reference image as a PNG.
    pub png: String,
    /// The thumbnail of the reference image.
    pub thumb: String,
}

/// Mathematical content of a `Scene`.
pub ghost struct SceneView {
    pub name: Seq<char>,
    pub path: Seq<char>,
    pub ref_img: Seq<char>,
    pub citation: Seq<char>,
    pub png: Seq<char>,
    pub thumb: Seq<char>,
}

impl View for Scene {
    type V = SceneView;

    open spec fn view(&self) -> SceneView {
        SceneView {
            name: self.name@,
            path: self.path@,
            ref_img: self.ref_img@,
            citation: self.citation@,
            png: self.png@,
            thumb: self.thumb@,
        }
    }
}

/// The content of each scene.
pub open spec fn scene_views(list: Seq<Scene>) -> Seq<SceneView> {
    list.map_values(|s: Scene| s@)
}

/// A renderer with the scenes it renders.
#[derive(Debug)]
pub struct Renderer {
    pub renderer: String,
    pub scenes: Vec<Scene>,
}

/// Mathematical content of a `Renderer`.
pub ghost struct RendererView {
    pub renderer: Seq<char>,
    pub scenes: Seq<SceneView>,
}

impl View for Renderer {
    type V = RendererView;

    open spec fn view(&self) -> RendererView {
        RendererView { renderer: self.renderer@, scenes: scene_views(self.scenes@) }
    }
}

/// The content of each renderer.
pub open spec fn renderer_views(list: Seq<Renderer>) -> Seq<RendererView> {
    list.map_values(|r: Renderer| r@)
}

/// An image quality metric as its `info.json` describes it.
#[derive(Debug)]
pub struct Metric {
    pub acronym: String,
    pub name: String,
    pub reference: String,
    pub lower_is_better: bool,
    pub has_error_map: bool,
    pub command: String,
}

/// Mathematical content of a `Metric`.
pub ghost struct MetricView {
    pub acronym: Seq<char>,
    pub name: Seq<char>,
    pub reference: Seq<char>,
    pub lower_is_better: bool,
    pub has_error_map: bool,
    pub command: Seq<char>,
}

impl View for Metric {
    type V = MetricView;

    open spec fn view(&self) -> MetricView {
        MetricView {
            acronym: self.acronym@,
            name: self.name@,
            reference: self.reference@,
            lower_is_better: self.lower_is_better,
            has_error_map: self.has_error_map,
            command: self.command@,
        }
    }
}

/// The content of each metric.
pub open spec fn metric_views(list: Seq<Metric>) -> Seq<MetricView> {
    list.map_values(|m: Metric| m@)
}

/// How long a run took.
#[derive(Debug)]
pub struct ExecTime {
    pub time_ms: i64,
}

/// One run of a technique on a scene, as its log and its metric files describe it.
#[derive(Debug)]
pub struct ResultLog {
    pub aborted: bool,
    pub date: String,
    pub exec_time: ExecTime,
    pub spp_budget: i32,
    pub metrics: Vec<MetricValue>,
    pub scene_name: String,
}

/// Mathematical content of a `ResultLog`.
pub ghost struct ResultLogView {
    pub aborted: bool,
    pub date: Seq<char>,
    pub time_ms: int,
    pub spp_budget: int,
    pub metrics: Seq<page::MetricValueView>,
    pub scene_name: Seq<char>,
}

impl View for ResultLog {
    type V = ResultLogView;

    open spec fn view(&self) -> ResultLogView {
        ResultLogView {
            aborted: self.aborted,
            date: self.date@,
            time_ms: self.exec_time.time_ms as int,
            spp_budget: self.spp_budget as int,
            metrics: page::value_views(self.metrics@),
            scene_name: self.scene_name@,
        }
    }
}

/// The content of each result.
pub open spec fn result_views(list: Seq<ResultLog>) -> Seq<ResultLogView> {
    list.map_values(|r: ResultLog| r@)
}

/// A technique with the results of one of its workspaces.
#[derive(Debug)]
pub struct Technique {
    pub short_name: String,
    pub full_name: String,
    pub comment: String,
    pub citation: String,
    pub results: Vec<ResultLog>,
    pub id: i32,
}

/// Mathematical content of a `Technique`.
pub ghost struct TechniqueView {
    pub short_name: Seq<char>,
    pub full_name: Seq<char>,
    pub comment: Seq<char>,
    pub citation: Seq<char>,
    pub results: Seq<ResultLogView>,
    pub id: int,
}

impl View for Technique {
    type V = TechniqueView;

    open spec fn view(&self) -> TechniqueView {
        TechniqueView {
            short_name: self.short_name@,
            full_name: self.full_name@,
            comment: self.comment@,
            citation: self.citation@,
            results: result_views(self.results@),
            id: self.id as int,
        }
    }
}

/// The content of each technique.
pub open spec fn technique_views(list: Seq<Technique>) -> Seq<TechniqueView> {
    list.map_values(|t: Technique| t@)
}

/// The scene of a renderer as the page lists it, under the given id.
pub open spec fn page_scene(renderer: Seq<char>, scene: SceneView, id: int) -> page::SceneView {
    page::SceneView {
        id,
        name: scene.name,
        renderer,
        reference: scene.png,
        thumbnail: scene.thumb,
    }
}

/// The first `count` scenes of a renderer as the page lists them, where the first of
/// them gets the id `base`.
pub open spec fn renderer_page_scenes(r: RendererView, base: int, count: int) -> Seq<
    page::SceneView,
>
    decreases count,
{
    if count <= 0 {
        Seq::empty()
    } else {
        renderer_page_scenes(r, base, count - 1).push(
            page_scene(r.renderer, r.scenes[count - 1], base + count - 1),
        )
    }
}

/// The scenes of the corpus as the page lists them: renderer after renderer, each
/// scene under its position in that order, counted from 0.
pub open spec fn page_scenes(renderers: Seq<RendererView>) -> Seq<page::SceneView>
    decreases renderers.len(),
{
    if renderers.len() == 0 {
        Seq::empty()
    } else {
        let before = page_scenes(renderers.drop_last());
        before + renderer_page_scenes(
            renderers.last(),
            before.len() as int,
            renderers.last().scenes.len() as int,
        )
    }
}

/// A metric as the page lists it.
pub open spec fn page_metric(m: MetricView) -> page::MetricView {
    page::MetricView {
        acronym: m.acronym,
        name: m.name,
        reference: m.reference,
        lower_is_better: m.lower_is_better,
        has_error_map: m.has_error_map,
    }
}

/// The metrics as the page lists them.
pub open spec fn page_metrics(metrics: Seq<MetricView>) -> Seq<page::MetricView> {
    metrics.map_values(|m: MetricView| page_metric(m))
}

/// A result of the technique `id` as the page lists it, where its scene has the id
/// `scene_id`.
pub open spec fn page_record(id: int, r: ResultLogView, scene_id: int) -> page::ResultRecordView {
    page::ResultRecordView {
        scene_id,
        spp: r.spp_budget,
        filter_version_id: id,
        exec_time: r.time_ms,
        aborted: r.aborted,
        metrics: r.metrics,
    }
}

/// The first `count` results of a technique as the page lists them; nothing where one
/// of them names a scene that is not among `scenes`.
pub open spec fn technique_records(t: TechniqueView, scenes: Seq<page::SceneView>, count: int)
    -> Option<Seq<page::ResultRecordView>>
    decreases count,
{
    if count <= 0 {
        Some(Seq::empty())
    } else {
        match (
            technique_records(t, scenes, count - 1),
            scene_id_of(scenes, t.results[count - 1].scene_name),
        ) {
            (Some(before), Some(scene_id)) => Some(
                before.push(page_record(t.id, t.results[count - 1], scene_id)),
            ),
            _ => None,
        }
    }
}

/// The results of the techniques of a group as the page lists them, technique after
/// technique; nothing where a result names a scene that is not among `scenes`.
pub open spec fn page_records(techniques: Seq<TechniqueView>, scenes: Seq<page::SceneView>)
    -> Option<Seq<page::ResultRecordView>>
    decreases techniques.len(),
{
    if techniques.len() == 0 {
        Some(Seq::empty())
    } else {
        match (
            page_records(techniques.drop_last(), scenes),
            technique_records(
                techniques.last(),
                scenes,
                techniques.last().results.len() as int,
            ),
        ) {
            (Some(before), Some(last)) => Some(before + last),
            _ => None,
        }
    }
}

/// Number of results of all the techniques.
pub open spec fn total_results(techniques: Seq<TechniqueView>) -> int
    decreases techniques.len(),
{
    if techniques.len() == 0 {
        0
    } else {
        total_results(techniques.drop_last()) + techniques.last().results.len()
    }
}

/// Number of scenes of all the renderers.
pub open spec fn total_scenes(renderers: Seq<RendererView>) -> int
    decreases renderers.len(),
{
    if renderers.len() == 0 {
        0
    } else {
        total_scenes(renderers.drop_last()) + renderers.last().scenes.len()
    }
}

/// `count` ids in a row, from `base` on.
pub open spec fn id_range(base: int, count: int) -> Seq<int> {
    Seq::new(count as nat, |k: int| base + k)
}

/// A technique as the page lists it: with its one version, tagged `default`, whose
/// results are the `base`th and following of the group.
pub open spec fn page_technique(t: TechniqueView, base: int) -> page::TechniqueView {
    page::TechniqueView {
        id: t.id,
        name: t.short_name,
        full_name: t.full_name,
        comment: t.comment,
        citation: t.citation,
        versions: seq![
            page::VersionView {
                id: t.id,
                tag: "default"@,
                message: t.comment,
                status: "ready"@,
                results_ids: id_range(base, t.results.len() as int),
            },
        ],
    }
}

/// The techniques of a group as the page lists them. The results of the group are
/// numbered from 0, technique after technique, and each technique refers to its own.
pub open spec fn page_techniques(techniques: Seq<TechniqueView>) -> Seq<page::TechniqueView> {
    Seq::new(
        techniques.len(),
        |a: int| page_technique(techniques[a], total_results(techniques.take(a))),
    )
}

/// The largest id that the page can hold.
pub open spec fn max_id() -> int {
    i32::MAX as int
}

/// The benchmark data in memory.
pub struct Workspace {
    renderers: Vec<Renderer>,
    denoisers: Vec<Technique>,
    samplers: Vec<Technique>,
    metrics: Vec<Metric>,
}

/// Mathematical content of a `Workspace`.
pub ghost struct WorkspaceView {
    pub renderers: Seq<RendererView>,
    pub denoisers: Seq<TechniqueView>,
    pub samplers: Seq<TechniqueView>,
    pub metrics: Seq<MetricView>,
}

impl View for Workspace {
    type V = WorkspaceView;

    closed spec fn view(&self) -> WorkspaceView {
        WorkspaceView {
            renderers: renderer_views(self.renderers@),
            denoisers: technique_views(self.denoisers@),
            samplers: technique_views(self.samplers@),
            metrics: metric_views(self.metrics@),
        }
    }
}

impl WorkspaceView {
    /// The data files of the results page. There are none where a result names a scene
    /// that the corpus does not hold, or where the scenes or the results of a group
    /// are more than the page has ids for.
    pub open spec fn page(self) -> Option<page::PageView> {
        let scenes = page_scenes(self.renderers);
        if total_scenes(self.renderers) > max_id() || total_results(self.denoisers) > max_id()
            || total_results(self.samplers) > max_id() {
            None
        } else {
            match (page_records(self.denoisers, scenes), page_records(self.samplers, scenes)) {
                (Some(results), Some(samplers_results)) => Some(
                    page::PageView {
                        scenes,
                        metrics: page_metrics(self.metrics),
                        results,
                        samplers_results,
                        filters: page_techniques(self.denoisers),
                        samplers: page_techniques(self.samplers),
                    },
                ),
                _ => None,
            }
        }
    }

    /// The techniques of a group.
    pub open spec fn group(self, group: TechniqueType) -> Seq<TechniqueView> {
        match group {
            TechniqueType::DENOISER => self.denoisers,
            TechniqueType::SAMPLER => self.samplers,
        }
    }

    /// The data with a technique loaded into a group: in place of the first technique
    /// of the group with the same id, or at the end where the group holds none.
    pub open spec fn load_technique(self, group: TechniqueType, tech: TechniqueView)
        -> WorkspaceView {
        let list = self.group(group);
        let loaded = match crate::seqs::first_index(list, technique_with_id(tech.id)) {
            Some(i) => list.update(i, tech),
            None => list.push(tech),
        };
        match group {
            TechniqueType::DENOISER => WorkspaceView { denoisers: loaded, ..self },
            TechniqueType::SAMPLER => WorkspaceView { samplers: loaded, ..self },
        }
    }
}

/// The technique has the given id.
pub open spec fn technique_with_id(id: int) -> spec_fn(TechniqueView) -> bool {
    |t: TechniqueView| t.id == id
}

/// The page lists as many scenes as the corpus holds.
pub proof fn lemma_page_scenes_len(renderers: Seq<RendererView>)
    ensures
        page_scenes(renderers).len() == total_scenes(renderers),
        total_scenes(renderers) >= 0,
    decreases renderers.len(),
{
    if renderers.len() > 0 {
        lemma_page_scenes_len(renderers.drop_last());
        lemma_renderer_page_scenes_len(
            renderers.last(),
            page_scenes(renderers.drop_last()).len() as int,
            renderers.last().scenes.len() as int,
        );
    }
}

/// A renderer contributes as many scenes as were asked for.
pub proof fn lemma_renderer_page_scenes_len(r: RendererView, base: int, count: int)
    requires
        0 <= count,
    ensures
        renderer_page_scenes(r, base, count).len() == count,
    decreases count,
{
    if count > 0 {
        lemma_renderer_page_scenes_len(r, base, count - 1);
    }
}

/// Every scene of the page carries its position as its id, so the ids are
/// `0..N-1` in the order of the renderers.
pub proof fn lemma_page_scene_ids(renderers: Seq<RendererView>, k: int)
    requires
        0 <= k < page_scenes(renderers).len(),
    ensures
        page_scenes(renderers)[k].id == k,
    decreases renderers.len(),
{
    if renderers.len() > 0 {
        let before = page_scenes(renderers.drop_last());
        if k < before.len() {
            lemma_page_scene_ids(renderers.drop_last(), k);
        } else {
            lemma_renderer_page_scenes_len(
                renderers.last(),
                before.len() as int,
                renderers.last().scenes.len() as int,
            );
            lemma_renderer_page_scene_ids(
                renderers.last(),
                before.len() as int,
                renderers.last().scenes.len() as int,
                k - before.len(),
            );
        }
    }
}

/// Within a renderer the ids count up from the base.
pub proof fn lemma_renderer_page_scene_ids(r: RendererView, base: int, count: int, k: int)
    requires
        0 <= k < count,
    ensures
        renderer_page_scenes(r, base, count).len() == count,
        renderer_page_scenes(r, base, count)[k].id == base + k,
    decreases count,
{
    lemma_renderer_page_scenes_len(r, base, count);
    lemma_renderer_page_scenes_len(r, base, count - 1);
    if k < count - 1 {
        lemma_renderer_page_scene_ids(r, base, count - 1, k);
    }
}

/// The number of results is never negative, and grows with the list.
pub proof fn lemma_total_results(techniques: Seq<TechniqueView>, upto: int)
    requires
        0 <= upto <= techniques.len(),
    ensures
        0 <= total_results(techniques.take(upto)) <= total_results(techniques),
    decreases techniques.len() - upto,
{
    lemma_total_nonneg(techniques.take(upto));
    if upto < techniques.len() {
        assert(techniques.take(upto + 1).drop_last() =~= techniques.take(upto));
        lemma_total_results(techniques, upto + 1);
    } else {
        assert(techniques.take(upto) =~= techniques);
    }
}

/// The number of results is never negative.
pub proof fn lemma_total_nonneg(techniques: Seq<TechniqueView>)
    ensures
        0 <= total_results(techniques),
    decreases techniques.len(),
{
    if techniques.len() > 0 {
        lemma_total_nonneg(techniques.drop_last());
    }
}

fn copy_values(values: &Vec<MetricValue>) -> (copy: Vec<MetricValue>)
    ensures
        page::value_views(copy@) == page::value_views(values@),
{
    let mut copy: Vec<MetricValue> = Vec::new();
    let mut i: usize = 0;
    while i < values.len()
        invariant
            i <= values.len(),
            page::value_views(copy@) == page::value_views(values@).take(i as int),
        decreases values.len() - i,
    {
        let ghost before = copy@;
        copy.push(values[i].clone());
        assert(page::value_views(copy@) =~= page::value_views(before).push(values@[i as int]@));
        i += 1;
        assert(page::value_views(copy@) =~= page::value_views(values@).take(i as int));
    }
    assert(page::value_views(values@).take(i as int) =~= page::value_views(values@));
    copy
}

fn export_renderer_scenes(r: &Renderer, base: i32, out: &mut Vec<page::Scene>)
    requires
        0 <= base,
        base + r.scenes.len() <= i32::MAX,
    ensures
        page::scene_views(final(out)@) == page::scene_views(old(out)@) + renderer_page_scenes(
            r@,
            base as int,
            r.scenes.len() as int,
        ),
{
    let mut k: usize = 0;
    assert(page::scene_views(out@) =~= page::scene_views(old(out)@) + renderer_page_scenes(
        r@,
        base as int,
        0,
    ));
    while k < r.scenes.len()
        invariant
            k <= r.scenes.len(),
            0 <= base,
            base + r.scenes.len() <= i32::MAX,
            page::scene_views(out@) == page::scene_views(old(out)@) + renderer_page_scenes(
                r@,
                base as int,
                k as int,
            ),
        decreases r.scenes.len() - k,
    {
        let ghost before = out@;
        let scene = page::Scene {
            id: base + k as i32,
            name: r.scenes[k].name.clone(),
            renderer: r.renderer.clone(),
            reference: r.scenes[k].png.clone(),
            thumbnail: r.scenes[k].thumb.clone(),
        };
        assert(scene@ == page_scene(r@.renderer, r@.scenes[k as int], base + k));
        out.push(scene);
        assert(page::scene_views(out@) =~= page::scene_views(before).push(scene@));
        k += 1;
        assert(page::scene_views(out@) =~= page::scene_views(old(out)@) + renderer_page_scenes(
            r@,
            base as int,
            k as int,
        ));
    }
}

fn export_scenes(renderers: &Vec<Renderer>) -> (scenes: Option<Vec<page::Scene>>)
    ensures
        match scenes {
            Some(scenes) => total_scenes(renderer_views(renderers@)) <= max_id()
                && page::scene_views(scenes@) == page_scenes(renderer_views(renderers@)),
            None => total_scenes(renderer_views(renderers@)) > max_id(),
        },
{
    let ghost all = renderer_views(renderers@);
    let mut scenes: Vec<page::Scene> = Vec::new();
    let mut count: i32 = 0;
    let mut i: usize = 0;
    assert(all.take(0) =~= Seq::<RendererView>::empty());
    assert(page::scene_views(scenes@) =~= page_scenes(all.take(0)));
    while i < renderers.len()
        invariant
            i <= renderers.len(),
            all == renderer_views(renderers@),
            0 <= count,
            count == total_scenes(all.take(i as int)),
            page::scene_views(scenes@) == page_scenes(all.take(i as int)),
        decreases renderers.len() - i,
    {
        proof {
            assert(all.take(i + 1).drop_last() =~= all.take(i as int));
            assert(all.take(i + 1).last() == renderers@[i as int]@);
            lemma_page_scenes_len(all.take(i as int));
        }
        let n = renderers[i].scenes.len();
        if n > (i32::MAX - count) as usize {
            proof {
                lemma_total_scenes_grows(all, i + 1);
            }
            return None;
        }
        export_renderer_scenes(&renderers[i], count, &mut scenes);
        count = count + n as i32;
        i += 1;
    }
    assert(all.take(i as int) =~= all);
    Some(scenes)
}

/// The number of scenes grows with the list of renderers.
proof fn lemma_total_scenes_grows(renderers: Seq<RendererView>, upto: int)
    requires
        0 <= upto <= renderers.len(),
    ensures
        total_scenes(renderers.take(upto)) <= total_scenes(renderers),
    decreases renderers.len() - upto,
{
    if upto < renderers.len() {
        assert(renderers.take(upto + 1).drop_last() =~= renderers.take(upto));
        lemma_total_scenes_grows(renderers, upto + 1);
    } else {
        assert(renderers.take(upto) =~= renderers);
    }
}

fn lookup_scene(scenes: &Vec<page::Scene>, name: &str) -> (id: Option<i32>)
    requires
        scenes.len() <= i32::MAX,
    ensures
        match id {
            Some(id) => scene_id_of(page::scene_views(scenes@), name@) == Some(id as int),
            None => scene_id_of(page::scene_views(scenes@), name@) is None,
        },
{
    let ghost all = page::scene_views(scenes@);
    let mut found: Option<i32> = None;
    let mut i: usize = 0;
    assert(all.take(0) =~= Seq::<page::SceneView>::empty());
    while i < scenes.len()
        invariant
            i <= scenes.len(),
            scenes.len() <= i32::MAX,
            all == page::scene_views(scenes@),
            match found {
                Some(id) => last_index(all.take(i as int), scene_named(name@)) == Some(id as int),
                None => last_index(all.take(i as int), scene_named(name@)) is None,
            },
        decreases scenes.len() - i,
    {
        proof {
            lemma_last_index_step(all, scene_named(name@), i as int);
        }
        if same(scenes[i].name.as_str(), name) {
            found = Some(i as i32);
        }
        i += 1;
    }
    assert(all.take(i as int) =~= all);
    found
}

fn export_technique_records(
    t: &Technique,
    scenes: &Vec<page::Scene>,
    out: &mut Vec<page::ResultRecord>,
) -> (complete: bool)
    requires
        scenes.len() <= i32::MAX,
    ensures
        match technique_records(t@, page::scene_views(scenes@), t.results.len() as int) {
            Some(list) => complete && page::record_views(final(out)@) == page::record_views(
                old(out)@,
            ) + list,
            None => !complete,
        },
{
    let ghost all = page::scene_views(scenes@);
    let mut k: usize = 0;
    assert(page::record_views(out@) =~= page::record_views(old(out)@) + Seq::<
        page::ResultRecordView,
    >::empty());
    while k < t.results.len()
        invariant
            k <= t.results.len(),
            scenes.len() <= i32::MAX,
            all == page::scene_views(scenes@),
            technique_records(t@, all, k as int) is Some,
            page::record_views(out@) == page::record_views(old(out)@) + technique_records(
                t@,
                all,
                k as int,
            )->0,
        decreases t.results.len() - k,
    {
        let ghost before = out@;
        let ghost listed = technique_records(t@, all, k as int)->0;
        match lookup_scene(scenes, t.results[k].scene_name.as_str()) {
            None => {
                proof {
                    lemma_records_fail(t@, all, k + 1, t.results.len() as int);
                }
                return false;
            },
            Some(scene_id) => {
                let record = page::ResultRecord {
                    scene_id,
                    spp: t.results[k].spp_budget,
                    filter_version_id: t.id,
                    exec_time: t.results[k].exec_time.time_ms,
                    aborted: t.results[k].aborted,
                    metrics: copy_values(&t.results[k].metrics),
                };
                assert(record@ == page_record(t@.id, t@.results[k as int], scene_id as int));
                out.push(record);
                assert(page::record_views(out@) =~= page::record_views(before).push(record@));
                assert(technique_records(t@, all, k + 1) == Some(listed.push(record@)));
                assert(page::record_views(out@) =~= page::record_views(old(out)@)
                    + listed.push(record@));
            },
        }
        k += 1;
    }
    true
}

/// Where the first results of a technique cannot be listed, neither can more of them.
proof fn lemma_records_fail(
    t: TechniqueView,
    scenes: Seq<page::SceneView>,
    count: int,
    more: int,
)
    requires
        0 <= count <= more,
        technique_records(t, scenes, count) is None,
    ensures
        technique_records(t, scenes, more) is None,
    decreases more - count,
{
    if count < more {
        lemma_records_fail(t, scenes, count, more - 1);
    }
}

fn export_records(techniques: &Vec<Technique>, scenes: &Vec<page::Scene>) -> (records: Option<
    Vec<page::ResultRecord>,
>)
    requires
        scenes.len() <= i32::MAX,
    ensures
        match records {
            Some(records) => page_records(technique_views(techniques@), page::scene_views(scenes@))
                == Some(page::record_views(records@)),
            None => page_records(technique_views(techniques@), page::scene_views(scenes@))
                is None,
        },
{
    let ghost all = technique_views(techniques@);
    let ghost listed = page::scene_views(scenes@);
    let mut records: Vec<page::ResultRecord> = Vec::new();
    let mut i: usize = 0;
    assert(all.take(0) =~= Seq::<TechniqueView>::empty());
    assert(page::record_views(records@) =~= Seq::<page::ResultRecordView>::empty());
    while i < techniques.len()
        invariant
            i <= techniques.len(),
            scenes.len() <= i32::MAX,
            all == technique_views(techniques@),
            listed == page::scene_views(scenes@),
            page_records(all.take(i as int), listed) == Some(page::record_views(records@)),
        decreases techniques.len() - i,
    {
        proof {
            assert(all.take(i + 1).drop_last() =~= all.take(i as int));
            assert(all.take(i + 1).last() == techniques@[i as int]@);
        }
        if !export_technique_records(&techniques[i], scenes, &mut records) {
            proof {
                lemma_page_records_fail(all, listed, i + 1);
            }
            return None;
        }
        i += 1;
    }
    assert(all.take(i as int) =~= all);
    Some(records)
}

/// Where the results of the first techniques cannot be listed, neither can those of all.
proof fn lemma_page_records_fail(
    techniques: Seq<TechniqueView>,
    scenes: Seq<page::SceneView>,
    upto: int,
)
    requires
        0 <= upto <= techniques.len(),
        page_records(techniques.take(upto), scenes) is None,
    ensures
        page_records(techniques, scenes) is None,
    decreases techniques.len() - upto,
{
    if upto < techniques.len() {
        assert(techniques.take(upto + 1).drop_last() =~= techniques.take(upto));
        lemma_page_records_fail(techniques, scenes, upto + 1);
    } else {
        assert(techniques.take(upto) =~= techniques);
    }
}

fn export_ids(base: i32, count: usize) -> (ids: Vec<i32>)
    requires
        0 <= base,
        base + count <= i32::MAX,
    ensures
        page::ints(ids@) == id_range(base as int, count as int),
{
    let mut ids: Vec<i32> = Vec::new();
    let mut k: usize = 0;
    while k < count
        invariant
            k <= count,
            0 <= base,
            base + count <= i32::MAX,
            page::ints(ids@) == id_range(base as int, k as int),
        decreases count - k,
    {
        let ghost before = ids@;
        ids.push(base + k as i32);
        assert(page::ints(ids@) =~= page::ints(before).push(base + k));
        k += 1;
        assert(page::ints(ids@) =~= id_range(base as int, k as int));
    }
    ids
}

fn export_techniques(techniques: &Vec<Technique>) -> (list: Option<Vec<page::Technique>>)
    ensures
        match list {
            Some(list) => total_results(technique_views(techniques@)) <= max_id()
                && page::technique_views(list@) == page_techniques(technique_views(techniques@)),
            None => total_results(technique_views(techniques@)) > max_id(),
        },
{
    let ghost all = technique_views(techniques@);
    let mut list: Vec<page::Technique> = Vec::new();
    let mut base: i32 = 0;
    let mut i: usize = 0;
    assert(all.take(0) =~= Seq::<TechniqueView>::empty());
    while i < techniques.len()
        invariant
            i <= techniques.len(),
            all == technique_views(techniques@),
            0 <= base,
            base == total_results(all.take(i as int)),
            page::technique_views(list@) == page_techniques(all).take(i as int),
        decreases techniques.len() - i,
    {
        proof {
            assert(all.take(i + 1).drop_last() =~= all.take(i as int));
            assert(all.take(i + 1).last() == techniques@[i as int]@);
        }
        let t = &techniques[i];
        let n = t.results.len();
        if n > (i32::MAX - base) as usize {
            proof {
                lemma_total_results(all, i + 1);
            }
            return None;
        }
        let mut versions: Vec<page::Version> = Vec::new();
        versions.push(
            page::Version {
                id: t.id,
                tag: String::from_str("default"),
                message: t.comment.clone(),
                status: String::from_str("ready"),
                results_ids: export_ids(base, n),
            },
        );
        let entry = page::Technique {
            id: t.id,
            name: t.short_name.clone(),
            full_name: t.full_name.clone(),
            comment: t.comment.clone(),
            citation: t.citation.clone(),
            versions,
        };
        assert(entry@.versions =~= page_technique(t@, base as int).versions);
        assert(entry@ == page_technique(all[i as int], total_results(all.take(i as int))));
        let ghost before = list@;
        list.push(entry);
        assert(page::technique_views(list@) =~= page::technique_views(before).push(entry@));
        base = base + n as i32;
        i += 1;
        assert(page::technique_views(list@) =~= page_techniques(all).take(i as int));
    }
    assert(all.take(i as int) =~= all);
    assert(page_techniques(all).take(i as int) =~= page_techniques(all));
    Some(list)
}

fn export_metrics(metrics: &Vec<Metric>) -> (list: Vec<page::Metric>)
    ensures
        page::metric_views(list@) == page_metrics(metric_views(metrics@)),
{
    let mut list: Vec<page::Metric> = Vec::new();
    let mut i: usize = 0;
    while i < metrics.len()
        invariant
            i <= metrics.len(),
            page::metric_views(list@) == page_metrics(metric_views(metrics@)).take(i as int),
        decreases metrics.len() - i,
    {
        let m = &metrics[i];
        let ghost before = list@;
        list.push(
            page::Metric {
                acronym: m.acronym.clone(),
                name: m.name.clone(),
                reference: m.reference.clone(),
                lower_is_better: m.lower_is_better,
                has_error_map: m.has_error_map,
            },
        );
        assert(page::metric_views(list@) =~= page::metric_views(before).push(
            page_metric(metrics@[i as int]@),
        ));
        i += 1;
        assert(page::metric_views(list@) =~= page_metrics(metric_views(metrics@)).take(i as int));
    }
    assert(page_metrics(metric_views(metrics@)).take(i as int) =~= page_metrics(
        metric_views(metrics@),
    ));
    list
}

/// The content of an optional page.
pub open spec fn page_option_view(p: Option<page::Page>) -> Option<page::PageView> {
    match p {
        Some(p) => Some(p@),
        None => None,
    }
}

impl Workspace {
    /// The benchmark data made of the corpus, the metrics and the published techniques
    /// of the two groups.
    pub fn new(
        renderers: Vec<Renderer>,
        metrics: Vec<Metric>,
        denoisers: Vec<Technique>,
        samplers: Vec<Technique>,
    ) -> (wp: Workspace)
        ensures
            wp@ == (WorkspaceView {
                renderers: renderer_views(renderers@),
                denoisers: technique_views(denoisers@),
                samplers: technique_views(samplers@),
                metrics: metric_views(metrics@),
            }),
    {
        Workspace { renderers, denoisers, samplers, metrics }
    }

    /// The scene corpus.
    pub fn renderers(&self) -> (list: &Vec<Renderer>)
        ensures
            renderer_views(list@) == self@.renderers,
    {
        &self.renderers
    }

    /// The denoisers with their results.
    pub fn denoisers(&self) -> (list: &Vec<Technique>)
        ensures
            technique_views(list@) == self@.denoisers,
    {
        &self.denoisers
    }

    /// The samplers with their results.
    pub fn samplers(&self) -> (list: &Vec<Technique>)
        ensures
            technique_views(list@) == self@.samplers,
    {
        &self.samplers
    }

    /// The image quality metrics.
    pub fn metrics(&self) -> (list: &Vec<Metric>)
        ensures
            metric_views(list@) == self@.metrics,
    {
        &self.metrics
    }

    /// Loads a technique into its group: in place of the technique with the same id,
    /// or at the end where the group holds none with that id.
    pub fn load_technique(&mut self, group: TechniqueType, tech: Technique)
        ensures
            final(self)@ == old(self)@.load_technique(group, tech@),
    {
        let ghost p = technique_with_id(tech.id as int);
        match group {
            TechniqueType::DENOISER => {
                match position_of(&self.denoisers, tech.id) {
                    Some(i) => {
                        self.denoisers.set(i, tech);
                    },
                    None => {
                        self.denoisers.push(tech);
                    },
                }
                assert(self@.denoisers =~= old(self)@.load_technique(group, tech@).denoisers);
            },
            TechniqueType::SAMPLER => {
                match position_of(&self.samplers, tech.id) {
                    Some(i) => {
                        self.samplers.set(i, tech);
                    },
                    None => {
                        self.samplers.push(tech);
                    },
                }
                assert(self@.samplers =~= old(self)@.load_technique(group, tech@).samplers);
            },
        }
    }

    /// The data files of the results page: the scenes numbered in the order of the
    /// renderers, the metrics, the results of each group numbered technique after
    /// technique, and the techniques of each group with the numbers of their results.
    ///
    /// There is no page where a result names a scene that the corpus does not hold, or
    /// where the scenes or the results of a group are more than `i32::MAX`.
    pub fn export_page(&self) -> (page: Option<page::Page>)
        ensures
            page_option_view(page) == self@.page(),
    {
        let scenes = match export_scenes(&self.renderers) {
            Some(scenes) => scenes,
            None => {
                return None;
            },
        };
        proof {
            lemma_page_scenes_len(self@.renderers);
        }
        let filters = match export_techniques(&self.denoisers) {
            Some(list) => list,
            None => {
                return None;
            },
        };
        let samplers = match export_techniques(&self.samplers) {
            Some(list) => list,
            None => {
                return None;
            },
        };
        let results = match export_records(&self.denoisers, &scenes) {
            Some(list) => list,
            None => {
                return None;
            },
        };
        let samplers_results = match export_records(&self.samplers, &scenes) {
            Some(list) => list,
            None => {
                return None;
            },
        };
        let metrics = export_metrics(&self.metrics);
        Some(page::Page { scenes, metrics, results, samplers_results, filters, samplers })
    }
}

fn position_of(techniques: &Vec<Technique>, id: i32) -> (found: Option<usize>)
    ensures
        match found {
            Some(i) => i < techniques.len() && crate::seqs::first_index(
                technique_views(techniques@),
                technique_with_id(id as int),
            ) == Some(i as int),
            None => crate::seqs::first_index(
                technique_views(techniques@),
                technique_with_id(id as int),
            ) is None,
        },
{
    let mut i: usize = 0;
    while i < techniques.len()
        invariant
            i <= techniques.len(),
            forall|j: int|
                0 <= j < i ==> !technique_with_id(id as int)(
                    #[trigger] technique_views(techniques@)[j],
                ),
        decreases techniques.len() - i,
    {
        if techniques[i].id == id {
            proof {
                crate::seqs::lemma_first_index_is(
                    technique_views(techniques@),
                    technique_with_id(id as int),
                    i as int,
                );
            }
            return Some(i);
        }
        i += 1;
    }
    proof {
        crate::seqs::lemma_first_index_none(
            technique_views(techniques@),
            technique_with_id(id as int),
        );
    }
    None
}

/// The ids on the page are stable. Every scene carries its position in the order of
/// the renderers, so the scenes of the page, and the id under which results refer to
/// a scene, depend on the corpus alone; and every technique keeps on the page the id
/// that it has in the registry.
pub proof fn lemma_page_ids(a: WorkspaceView, b: WorkspaceView)
    requires
        a.page() is Some,
        b.page() is Some,
        a.renderers == b.renderers,
    ensures
        a.page()->0.scenes == b.page()->0.scenes,
        forall|k: int|
            0 <= k < a.page()->0.scenes.len() ==> (#[trigger] a.page()->0.scenes[k]).id == k,
        forall|name: Seq<char>|
            scene_id_of(a.page()->0.scenes, name) == scene_id_of(b.page()->0.scenes, name),
        a.page()->0.filters.len() == a.denoisers.len(),
        a.page()->0.samplers.len() == a.samplers.len(),
        forall|i: int|
            0 <= i < a.denoisers.len() ==> (#[trigger] a.page()->0.filters[i]).id
                == a.denoisers[i].id,
        forall|i: int|
            0 <= i < a.samplers.len() ==> (#[trigger] a.page()->0.samplers[i]).id
                == a.samplers[i].id,
{
    assert forall|k: int| 0 <= k < a.page()->0.scenes.len() implies (
    #[trigger] a.page()->0.scenes[k]).id == k by {
        lemma_page_scene_ids(a.renderers, k);
    }
}

/// The results of a technique are listed one for one.
pub proof fn lemma_technique_records(
    t: TechniqueView,
    scenes: Seq<page::SceneView>,
    count: int,
    k: int,
)
    requires
        0 <= k < count <= t.results.len(),
        technique_records(t, scenes, count) is Some,
    ensures
        technique_records(t, scenes, count)->0.len() == count,
        scene_id_of(scenes, t.results[k].scene_name) is Some,
        technique_records(t, scenes, count)->0[k] == page_record(
            t.id,
            t.results[k],
            scene_id_of(scenes, t.results[k].scene_name)->0,
        ),
    decreases count,
{
    lemma_technique_records_len(t, scenes, count);
    lemma_technique_records_len(t, scenes, count - 1);
    if k < count - 1 {
        lemma_technique_records(t, scenes, count - 1, k);
    }
}

/// A technique contributes as many records as it has results.
pub proof fn lemma_technique_records_len(t: TechniqueView, scenes: Seq<page::SceneView>, count: int)
    requires
        0 <= count,
        technique_records(t, scenes, count) is Some,
    ensures
        technique_records(t, scenes, count)->0.len() == count,
    decreases count,
{
    if count > 0 {
        lemma_technique_records_len(t, scenes, count - 1);
    }
}

/// The page lists as many records as the techniques have results.
pub proof fn lemma_page_records_len(techniques: Seq<TechniqueView>, scenes: Seq<page::SceneView>)
    requires
        page_records(techniques, scenes) is Some,
    ensures
        page_records(techniques, scenes)->0.len() == total_results(techniques),
    decreases techniques.len(),
{
    if techniques.len() > 0 {
        lemma_page_records_len(techniques.drop_last(), scenes);
        lemma_technique_records_len(
            techniques.last(),
            scenes,
            techniques.last().results.len() as int,
        );
    }
}

/// Every record of the page carries the id of its scene and of its technique. The
/// `k`th result of the `a`th technique stands at the position that the technique's
/// version names for it; its record refers to the last scene that has the name of
/// the result, and to the technique by its id.
pub proof fn lemma_page_records(
    techniques: Seq<TechniqueView>,
    scenes: Seq<page::SceneView>,
    a: int,
    k: int,
)
    requires
        page_records(techniques, scenes) is Some,
        0 <= a < techniques.len(),
        0 <= k < techniques[a].results.len(),
    ensures
        ({
            let records = page_records(techniques, scenes)->0;
            let at = total_results(techniques.take(a)) + k;
            let result = techniques[a].results[k];
            &&& records.len() == total_results(techniques)
            &&& 0 <= at < records.len()
            &&& page_techniques(techniques)[a].versions[0].results_ids[k] == at
            &&& scene_id_of(scenes, result.scene_name) == Some(records[at].scene_id)
            &&& 0 <= records[at].scene_id < scenes.len()
            &&& scenes[records[at].scene_id].name == result.scene_name
            &&& records[at].filter_version_id == techniques[a].id
            &&& records[at] == page_record(techniques[a].id, result, records[at].scene_id)
        }),
    decreases techniques.len(),
{
    let head = techniques.drop_last();
    let last = techniques.last();
    lemma_page_records_len(techniques, scenes);
    lemma_page_records_len(head, scenes);
    lemma_total_results(techniques, a);
    if a == techniques.len() - 1 {
        assert(techniques.take(a) =~= head);
        lemma_technique_records(last, scenes, last.results.len() as int, k);
    } else {
        assert(head.take(a) =~= techniques.take(a));
        assert(head[a] == techniques[a]);
        lemma_page_records(head, scenes, a, k);
        lemma_total_results(head, a + 1);
        assert(head.take(a + 1).drop_last() =~= head.take(a));
    }
    crate::seqs::lemma_last_index(scenes, scene_named(techniques[a].results[k].scene_name));
}

} // verus!
