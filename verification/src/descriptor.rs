//! The records that describe a service: the descriptor read from a unit
//! file, the metadata overlay kept beside it, the configuration that a
//! unit file is written from, and the built-in templates.

use vstd::prelude::*;

verus! {

/// Presentation and operational metadata that a user attaches to a
/// service. It is stored apart from the unit file.
#[derive(Debug, PartialEq, Eq)]
pub struct ServiceMetadata {
    pub display_name: Option<String>,
    pub description: Option<String>,
    pub icon: Option<String>,
    pub port: Option<u16>,
    pub health_url: Option<String>,
    pub order: Option<i32>,
    pub project_path: Option<String>,
    pub app_path: Option<String>,
}

/// Mathematical form of [`ServiceMetadata`].
pub struct ServiceMetadataView {
    pub display_name: Option<Seq<char>>,
    pub description: Option<Seq<char>>,
    pub icon: Option<Seq<char>>,
    pub port: Option<u16>,
    pub health_url: Option<Seq<char>>,
    pub order: Option<i32>,
    pub project_path: Option<Seq<char>>,
    pub app_path: Option<Seq<char>>,
}

impl ServiceMetadataView {
    /// The overlay in which no field is set.
    pub open spec fn blank() -> ServiceMetadataView {
        ServiceMetadataView {
            display_name: None,
            description: None,
            icon: None,
            port: None,
            health_url: None,
            order: None,
            project_path: None,
            app_path: None,
        }
    }

    /// This overlay with its order replaced.
    pub open spec fn with_order(self, order: i32) -> ServiceMetadataView {
        ServiceMetadataView { order: Some(order), ..self }
    }
}

impl View for ServiceMetadata {
    type V = ServiceMetadataView;

    open spec fn view(&self) -> ServiceMetadataView {
        ServiceMetadataView {
            display_name: self.display_name.deep_view(),
            description: self.description.deep_view(),
            icon: self.icon.deep_view(),
            port: self.port,
            health_url: self.health_url.deep_view(),
            order: self.order,
            project_path: self.project_path.deep_view(),
            app_path: self.app_path.deep_view(),
        }
    }
}

impl DeepView for ServiceMetadata {
    type V = ServiceMetadataView;

    open spec fn deep_view(&self) -> ServiceMetadataView {
        self@
    }
}

impl Clone for ServiceMetadata {
    fn clone(&self) -> (r: Self)
        ensures
            r@ == self@,
    {
        ServiceMetadata {
            display_name: clone_opt_string(&self.display_name),
            description: clone_opt_string(&self.description),
            icon: clone_opt_string(&self.icon),
            port: self.port,
            health_url: clone_opt_string(&self.health_url),
            order: self.order,
            project_path: clone_opt_string(&self.project_path),
            app_path: clone_opt_string(&self.app_path),
        }
    }
}

impl Default for ServiceMetadata {
    fn default() -> (r: Self)
        ensures
            r@ == ServiceMetadataView::blank(),
    {
        ServiceMetadata {
            display_name: None,
            description: None,
            icon: None,
            port: None,
            health_url: None,
            order: None,
            project_path: None,
            app_path: None,
        }
    }
}

/// What a unit file declares about a service.
#[derive(Debug, PartialEq, Eq)]
pub struct ServiceConfig {
    pub label: String,
    pub program: Option<String>,
    pub program_arguments: Option<Vec<String>>,
    pub run_at_load: Option<bool>,
    pub keep_alive: Option<bool>,
    pub working_directory: Option<String>,
    pub standard_out_path: Option<String>,
    pub standard_error_path: Option<String>,
    /// Environment variables as name and value, each name once.
    pub environment_variables: Option<Vec<(String, String)>>,
}

/// Mathematical form of [`ServiceConfig`].
pub struct ServiceConfigView {
    pub label: Seq<char>,
    pub program: Option<Seq<char>>,
    pub program_arguments: Option<Seq<Seq<char>>>,
    pub run_at_load: Option<bool>,
    pub keep_alive: Option<bool>,
    pub working_directory: Option<Seq<char>>,
    pub standard_out_path: Option<Seq<char>>,
    pub standard_error_path: Option<Seq<char>>,
    pub environment_variables: Option<Seq<(Seq<char>, Seq<char>)>>,
}

/// No name occurs twice among the pairs.
pub open spec fn distinct_names(pairs: Seq<(Seq<char>, Seq<char>)>) -> bool {
    forall|i: int, j: int|
        0 <= i < j < pairs.len() ==> (#[trigger] pairs[i]).0 != (#[trigger] pairs[j]).0
}

impl ServiceConfigView {
    /// Each environment variable is named once.
    pub open spec fn wf(self) -> bool {
        self.environment_variables matches Some(pairs) ==> distinct_names(pairs)
    }
}

impl View for ServiceConfig {
    type V = ServiceConfigView;

    open spec fn view(&self) -> ServiceConfigView {
        ServiceConfigView {
            label: self.label@,
            program: self.program.deep_view(),
            program_arguments: self.program_arguments.deep_view(),
            run_at_load: self.run_at_load,
            keep_alive: self.keep_alive,
            working_directory: self.working_directory.deep_view(),
            standard_out_path: self.standard_out_path.deep_view(),
            standard_error_path: self.standard_error_path.deep_view(),
            environment_variables: self.environment_variables.deep_view(),
        }
    }
}

impl DeepView for ServiceConfig {
    type V = ServiceConfigView;

    open spec fn deep_view(&self) -> ServiceConfigView {
        self@
    }
}

/// A service as the listing reports it: what its unit file declares,
/// where that file is, whether the supervisor has it loaded, and the
/// metadata overlay for its label.
#[derive(Clone, Debug, PartialEq, Eq)]
pub struct LaunchAgent {
    pub label: String,
    pub program: Option<String>,
    pub program_arguments: Option<Vec<String>>,
    pub run_at_load: Option<bool>,
    pub keep_alive: Option<bool>,
    pub working_directory: Option<String>,
    pub standard_out_path: Option<String>,
    pub standard_error_path: Option<String>,
    pub environment_variables: Option<Vec<(String, String)>>,
    pub file_path: String,
    pub is_loaded: bool,
    pub pid: Option<i32>,
    pub display_name: Option<String>,
    pub description: Option<String>,
    pub icon: Option<String>,
    pub port: Option<u16>,
    pub health_url: Option<String>,
    pub order: Option<i32>,
    pub project_path: Option<String>,
    pub app_path: Option<String>,
}

/// Mathematical form of [`LaunchAgent`], grouped by origin.
pub struct LaunchAgentView {
    /// What the unit file declares.
    pub declared: ServiceConfigView,
    pub file_path: Seq<char>,
    pub is_loaded: bool,
    pub pid: Option<i32>,
    /// The metadata overlay.
    pub overlay: ServiceMetadataView,
}

impl View for LaunchAgent {
    type V = LaunchAgentView;

    open spec fn view(&self) -> LaunchAgentView {
        LaunchAgentView {
            declared: ServiceConfigView {
                label: self.label@,
                program: self.program.deep_view(),
                program_arguments: self.program_arguments.deep_view(),
                run_at_load: self.run_at_load,
                keep_alive: self.keep_alive,
                working_directory: self.working_directory.deep_view(),
                standard_out_path: self.standard_out_path.deep_view(),
                standard_error_path: self.standard_error_path.deep_view(),
                environment_variables: self.environment_variables.deep_view(),
            },
            file_path: self.file_path@,
            is_loaded: self.is_loaded,
            pid: self.pid,
            overlay: ServiceMetadataView {
                display_name: self.display_name.deep_view(),
                description: self.description.deep_view(),
                icon: self.icon.deep_view(),
                port: self.port,
                health_url: self.health_url.deep_view(),
                order: self.order,
                project_path: self.project_path.deep_view(),
                app_path: self.app_path.deep_view(),
            },
        }
    }
}

impl DeepView for LaunchAgent {
    type V = LaunchAgentView;

    open spec fn deep_view(&self) -> LaunchAgentView {
        self@
    }
}

/// A built-in template that pre-fills the creation of a service.
#[derive(Clone, Debug, PartialEq, Eq)]
pub struct PresetService {
    pub label: String,
    pub display_name: String,
    pub description: String,
    pub icon: String,
    pub program: Option<String>,
    pub program_arguments: Option<Vec<String>>,
    pub working_directory: Option<String>,
    pub port: Option<u16>,
    pub health_url: Option<String>,
    pub run_at_load: bool,
    pub keep_alive: bool,
    pub app_path: Option<String>,
}

/// Mathematical form of [`PresetService`].
pub struct PresetServiceView {
    pub label: Seq<char>,
    pub display_name: Seq<char>,
    pub description: Seq<char>,
    pub icon: Seq<char>,
    pub program: Option<Seq<char>>,
    pub program_arguments: Option<Seq<Seq<char>>>,
    pub working_directory: Option<Seq<char>>,
    pub port: Option<u16>,
    pub health_url: Option<Seq<char>>,
    pub run_at_load: bool,
    pub keep_alive: bool,
    pub app_path: Option<Seq<char>>,
}

impl View for PresetService {
    type V = PresetServiceView;

    open spec fn view(&self) -> PresetServiceView {
        PresetServiceView {
            label: self.label@,
            display_name: self.display_name@,
            description: self.description@,
            icon: self.icon@,
            program: self.program.deep_view(),
            program_arguments: self.program_arguments.deep_view(),
            working_directory: self.working_directory.deep_view(),
            port: self.port,
            health_url: self.health_url.deep_view(),
            run_at_load: self.run_at_load,
            keep_alive: self.keep_alive,
            app_path: self.app_path.deep_view(),
        }
    }
}

impl DeepView for PresetService {
    type V = PresetServiceView;

    open spec fn deep_view(&self) -> PresetServiceView {
        self@
    }
}

/// A copy of an optional string.
pub fn clone_opt_string(o: &Option<String>) -> (r: Option<String>)
    ensures
        r.deep_view() == o.deep_view(),
{
    match o {
        Some(s) => Some(s.clone()),
        None => None,
    }
}

} // verus!
