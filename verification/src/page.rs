//! The data files of the results page, and the private copy of the public page.

use crate::seqs::last_index;
use vstd::prelude::*;
use vstd::string::*;

verus! {

/// A scene as the page lists it.
#[derive(Debug)]
pub struct Scene {
    pub id: i32,
    pub name: String,
    pub renderer: String,
    pub reference: String,
    pub thumbnail: String,
}

/// Mathematical content of a `Scene`.
pub ghost struct SceneView {
    pub id: int,
    pub name: Seq<char>,
    pub renderer: Seq<char>,
    pub reference: Seq<char>,
    pub thumbnail: Seq<char>,
}

impl View for Scene {
    type V = SceneView;

    open spec fn view(&self) -> SceneView {
        SceneView {
            id: self.id as int,
            name: self.name@,
            renderer: self.renderer@,
            reference: self.reference@,
            thumbnail: self.thumbnail@,
        }
    }
}

/// The content of each scene.
pub open spec fn scene_views(list: Seq<Scene>) -> Seq<SceneView> {
    list.map_values(|s: Scene| s@)
}

/// A version of a technique as the page lists it.
#[derive(Debug)]
pub struct Version {
    pub id: i32,
    pub tag: String,
    pub message: String,
    pub status: String,
    pub results_ids: Vec<i32>,
}

/// Mathematical content of a `Version`.
pub ghost struct VersionView {
    pub id: int,
    pub tag: Seq<char>,
    pub message: Seq<char>,
    pub status: Seq<char>,
    pub results_ids: Seq<int>,
}

/// Machine integers as mathematical ones.
pub open spec fn ints(list: Seq<i32>) -> Seq<int> {
    list.map_values(|i: i32| i as int)
}

impl View for Version {
    type V = VersionView;

    open spec fn view(&self) -> VersionView {
        VersionView {
            id: self.id as int,
            tag: self.tag@,
            message: self.message@,
            status: self.status@,
            results_ids: ints(self.results_ids@),
        }
    }
}

/// A technique as the page lists it.
#[derive(Debug)]
pub struct Technique {
    pub id: i32,
    pub name: String,
    pub full_name: String,
    pub comment: String,
    pub citation: String,
    pub versions: Vec<Version>,
}

/// Mathematical content of a `Technique`.
pub ghost struct TechniqueView {
    pub id: int,
    pub name: Seq<char>,
    pub full_name: Seq<char>,
    pub comment: Seq<char>,
    pub citation: Seq<char>,
    pub versions: Seq<VersionView>,
}

impl View for Technique {
    type V = TechniqueView;

    open spec fn view(&self) -> TechniqueView {
        TechniqueView {
            id: self.id as int,
            name: self.name@,
            full_name: self.full_name@,
            comment: self.comment@,
            citation: self.citation@,
            versions: self.versions@.map_values(|v: Version| v@),
        }
    }
}

/// The content of each technique.
pub open spec fn technique_views(list: Seq<Technique>) -> Seq<TechniqueView> {
    list.map_values(|t: Technique| t@)
}

/// An image quality metric as the page lists it.
#[derive(Debug)]
pub struct Metric {
    pub acronym: String,
    pub name: String,
    pub reference: String,
    pub lower_is_better: bool,
    pub has_error_map: bool,
}

/// Mathematical content of a `Metric`.
pub ghost struct MetricView {
    pub acronym: Seq<char>,
    pub name: Seq<char>,
    pub reference: Seq<char>,
    pub lower_is_better: bool,
    pub has_error_map: bool,
}

impl View for Metric {
    type V = MetricView;

    open spec fn view(&self) -> MetricView {
        MetricView {
            acronym: self.acronym@,
            name: self.name@,
            reference: self.reference@,
            lower_is_better: self.lower_is_better,
            has_error_map: self.has_error_map,
        }
    }
}

/// The content of each metric.
pub open spec fn metric_views(list: Seq<Metric>) -> Seq<MetricView> {
    list.map_values(|m: Metric| m@)
}

/// The value that a metric gave for one result. The value is a single-precision
/// number, kept as its 32 bits.
#[derive(Debug)]
pub struct MetricValue {
    pub metric: String,
    pub bits: u32,
}

/// Mathematical content of a `MetricValue`.
pub ghost struct MetricValueView {
    pub metric: Seq<char>,
    pub bits: int,
}

impl View for MetricValue {
    type V = MetricValueView;

    open spec fn view(&self) -> MetricValueView {
        MetricValueView { metric: self.metric@, bits: self.bits as int }
    }
}

impl Clone for MetricValue {
    fn clone(&self) -> (copy: Self)
        ensures
            copy == *self,
    {
        MetricValue { metric: self.metric.clone(), bits: self.bits }
    }
}

/// The content of each value.
pub open spec fn value_views(list: Seq<MetricValue>) -> Seq<MetricValueView> {
    list.map_values(|v: MetricValue| v@)
}

/// One benchmark result as the page lists it.
#[derive(Debug)]
pub struct ResultRecord {
    pub scene_id: i32,
    pub spp: i32,
    pub filter_version_id: i32,
    pub exec_time: i64,
    pub aborted: bool,
    pub metrics: Vec<MetricValue>,
}

/// Mathematical content of a `ResultRecord`.
pub ghost struct ResultRecordView {
    pub scene_id: int,
    pub spp: int,
    pub filter_version_id: int,
    pub exec_time: int,
    pub aborted: bool,
    pub metrics: Seq<MetricValueView>,
}

impl View for ResultRecord {
    type V = ResultRecordView;

    open spec fn view(&self) -> ResultRecordView {
        ResultRecordView {
            scene_id: self.scene_id as int,
            spp: self.spp as int,
            filter_version_id: self.filter_version_id as int,
            exec_time: self.exec_time as int,
            aborted: self.aborted,
            metrics: value_views(self.metrics@),
        }
    }
}

/// The content of each record.
pub open spec fn record_views(list: Seq<ResultRecord>) -> Seq<ResultRecordView> {
    list.map_values(|r: ResultRecord| r@)
}

/// The data files of a results page. Where a file is a JSON object, its entries are
/// listed here in the order in which they are put in: the scenes and the results
/// under their position written in decimal, the metrics under their acronym.
#[derive(Debug)]
pub struct Page {
    /// `scenes.json`
    pub scenes: Vec<Scene>,
    /// `iqa_metrics.json`
    pub metrics: Vec<Metric>,
    /// `results.json`
    pub results: Vec<ResultRecord>,
    /// `samplers_results.json`
    pub samplers_results: Vec<ResultRecord>,
    /// `filters.json`
    pub filters: Vec<Technique>,
    /// `samplers.json`
    pub samplers: Vec<Technique>,
}

/// Mathematical content of a `Page`.
pub ghost struct PageView {
    pub scenes: Seq<SceneView>,
    pub metrics: Seq<MetricView>,
    pub results: Seq<ResultRecordView>,
    pub samplers_results: Seq<ResultRecordView>,
    pub filters: Seq<TechniqueView>,
    pub samplers: Seq<TechniqueView>,
}

impl View for Page {
    type V = PageView;

    open spec fn view(&self) -> PageView {
        PageView {
            scenes: scene_views(self.scenes@),
            metrics: metric_views(self.metrics@),
            results: record_views(self.results@),
            samplers_results: record_views(self.samplers_results@),
            filters: technique_views(self.filters@),
            samplers: technique_views(self.samplers@),
        }
    }
}

/// The scene has the given name.
pub open spec fn scene_named(name: Seq<char>) -> spec_fn(SceneView) -> bool {
    |s: SceneView| s.name == name
}

/// The id under which results refer to the scene of the given name: the position of
/// the last scene of that name.
pub open spec fn scene_id_of(scenes: Seq<SceneView>, name: Seq<char>) -> Option<int> {
    last_index(scenes, scene_named(name))
}

} // verus!
