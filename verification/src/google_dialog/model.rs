//! What the models of the 3.8 generation accept: how they think, which functions they can be given,
//! and when they take up results.

use vstd::prelude::*;

use crate::error::Error;
use crate::google_dialog::types::declarations_view;
use crate::google_dialog::types::tools_view;
use crate::google_dialog::types::DeclarationView;
use crate::google_dialog::types::FunctionBehavior;
use crate::google_dialog::types::FunctionDeclaration;
use crate::google_dialog::types::FunctionResponseScheduling;
use crate::google_dialog::types::Params;
use crate::google_dialog::types::ThinkingLevel;
use crate::google_dialog::types::Tool;
use crate::google_dialog::types::ToolView;
use crate::json::clone_json;
use crate::text::concat3;
use crate::text::same_text;

verus! {

/// What a model accepts.
#[derive(Debug, Clone, Copy, PartialEq, Eq, Structural)]
pub struct ModelConfig {
    pub thinking: ThinkingPolicy,
    pub functions: FunctionPolicy,
    pub response_scheduling: SchedulingPolicy,
}

/// Which thinking levels a model accepts.
#[derive(Debug, Clone, Copy, PartialEq, Eq, Structural)]
pub enum ThinkingPolicy {
    /// None.
    Disabled,
    /// All of them, but perhaps for the lowest.
    Optional { allows_minimal: bool },
}

/// Which functions a model accepts.
#[derive(Debug, Clone, Copy, PartialEq, Eq, Structural)]
pub enum FunctionPolicy {
    BlockingAndNonBlocking,
    NonBlockingOnly,
}

/// Whether a result may say when it is taken up.
#[derive(Debug, Clone, Copy, PartialEq, Eq, Structural)]
pub enum SchedulingPolicy {
    SupportedForNonBlocking,
    Unsupported,
}

/// What the known models accept.
pub open spec fn known_model(model: Seq<char>) -> Option<ModelConfig> {
    if model == "gemini-3.8-live"@ {
        Some(
            ModelConfig {
                thinking: ThinkingPolicy::Disabled,
                functions: FunctionPolicy::BlockingAndNonBlocking,
                response_scheduling: SchedulingPolicy::SupportedForNonBlocking,
            },
        )
    } else if model == "gemini-3.8-live-extended-thinking"@ {
        Some(
            ModelConfig {
                thinking: ThinkingPolicy::Optional { allows_minimal: false },
                functions: FunctionPolicy::NonBlockingOnly,
                response_scheduling: SchedulingPolicy::Unsupported,
            },
        )
    } else {
        None
    }
}

/// What a model accepts, if it is known. Other models are not checked.
pub fn model_config(model: &str) -> (r: Option<ModelConfig>)
    ensures
        r == known_model(model@),
{
    if same_text(model, "gemini-3.8-live") {
        Some(
            ModelConfig {
                thinking: ThinkingPolicy::Disabled,
                functions: FunctionPolicy::BlockingAndNonBlocking,
                response_scheduling: SchedulingPolicy::SupportedForNonBlocking,
            },
        )
    } else if same_text(model, "gemini-3.8-live-extended-thinking") {
        Some(
            ModelConfig {
                thinking: ThinkingPolicy::Optional { allows_minimal: false },
                functions: FunctionPolicy::NonBlockingOnly,
                response_scheduling: SchedulingPolicy::Unsupported,
            },
        )
    } else {
        None
    }
}

/// The name of a thinking level.
pub open spec fn level_name(level: ThinkingLevel) -> Seq<char> {
    match level {
        ThinkingLevel::Minimal => "minimal"@,
        ThinkingLevel::Low => "low"@,
        ThinkingLevel::Medium => "medium"@,
        ThinkingLevel::High => "high"@,
    }
}

impl ThinkingLevel {
    /// The name of the level.
    pub fn as_str(self) -> (r: &'static str)
        ensures
            r@ == level_name(self),
    {
        match self {
            ThinkingLevel::Minimal => "minimal",
            ThinkingLevel::Low => "low",
            ThinkingLevel::Medium => "medium",
            ThinkingLevel::High => "high",
        }
    }
}

/// A complaint about a model.
pub open spec fn model_complaint(model: Seq<char>, complaint: Seq<char>) -> Seq<char> {
    "Model `"@ + model + complaint
}

fn model_error(model: &str, complaint: &str) -> (r: Error)
    ensures
        r@ == seq![model_complaint(model@, complaint@)],
{
    Error::from_text(concat3("Model `", model, complaint))
}

/// What is wrong with a thinking level for a model, if anything.
pub open spec fn thinking_error(model: Seq<char>, level: Option<ThinkingLevel>) -> Option<
    Seq<char>,
> {
    match (known_model(model), level) {
        (Some(config), Some(level)) => match config.thinking {
            ThinkingPolicy::Disabled => Some(
                model_complaint(
                    model,
                    "` does not support thinking_level `"@ + level_name(level)
                        + "`; omit thinking_level"@,
                ),
            ),
            ThinkingPolicy::Optional { allows_minimal } => if level == ThinkingLevel::Minimal
                && !allows_minimal {
                Some(model_complaint(model, "` does not support thinking_level `minimal`"@))
            } else {
                None
            },
        },
        _ => None,
    }
}

/// Checks that the model accepts the thinking level that is asked for.
pub fn validate_thinking_level(params: &Params) -> (r: Result<(), Error>)
    ensures
        r is Ok <==> thinking_error(params.model@, params.thinking_level) is None,
        r matches Err(e) ==> e@ == seq![thinking_error(params.model@, params.thinking_level)->0],
{
    let config = match model_config(params.model.as_str()) {
        Some(config) => config,
        None => return Ok(()),
    };
    match (config.thinking, params.thinking_level) {
        (ThinkingPolicy::Disabled, Some(level)) => {
            let complaint = concat3(
                "` does not support thinking_level `",
                level.as_str(),
                "`; omit thinking_level",
            );
            Err(model_error(params.model.as_str(), complaint.as_str()))
        },
        (ThinkingPolicy::Optional { allows_minimal }, Some(ThinkingLevel::Minimal)) => {
            if allows_minimal {
                Ok(())
            } else {
                Err(
                    model_error(
                        params.model.as_str(),
                        "` does not support thinking_level `minimal`",
                    ),
                )
            }
        },
        _ => Ok(()),
    }
}

/// Whether a model accepts non-blocking functions only.
pub open spec fn non_blocking_only(model: Seq<char>) -> bool {
    known_model(model) is Some && known_model(model)->0.functions == FunctionPolicy::NonBlockingOnly
}

/// What is wrong with a function for a model that accepts non-blocking functions only.
pub open spec fn declaration_error(model: Seq<char>, declaration: DeclarationView) -> Option<
    Seq<char>,
> {
    if declaration.scheduling is Some {
        Some(model_complaint(model, "` does not support function declaration scheduling"@))
    } else if declaration.behavior == Some(FunctionBehavior::Blocking) {
        Some(model_complaint(model, "` requires non-blocking function declarations"@))
    } else {
        None
    }
}

/// The first thing that is wrong with the functions of a tool.
pub open spec fn declarations_error(model: Seq<char>, declarations: Seq<DeclarationView>) -> Option<
    Seq<char>,
>
    decreases declarations.len(),
{
    if declarations.len() == 0 {
        None
    } else {
        match declarations_error(model, declarations.drop_last()) {
            Some(message) => Some(message),
            None => declaration_error(model, declarations.last()),
        }
    }
}

/// The first thing that is wrong with the functions of the tools.
pub open spec fn tools_error(model: Seq<char>, tools: Seq<ToolView>) -> Option<Seq<char>>
    decreases tools.len(),
{
    if tools.len() == 0 {
        None
    } else {
        match tools_error(model, tools.drop_last()) {
            Some(message) => Some(message),
            None => match tools.last() {
                ToolView::FunctionDeclarations(declarations) => declarations_error(
                    model,
                    declarations,
                ),
                ToolView::Hosted(_) => None,
            },
        }
    }
}

/// The same functions, all of them non-blocking.
pub open spec fn non_blocking(declarations: Seq<DeclarationView>) -> Seq<DeclarationView> {
    declarations.map_values(
        |d: DeclarationView|
            DeclarationView { behavior: Some(FunctionBehavior::NonBlocking), ..d },
    )
}

/// The same tools, all functions among them non-blocking.
pub open spec fn non_blocking_tools(tools: Seq<ToolView>) -> Seq<ToolView> {
    tools.map_values(
        |t: ToolView|
            match t {
                ToolView::FunctionDeclarations(declarations) => ToolView::FunctionDeclarations(
                    non_blocking(declarations),
                ),
                ToolView::Hosted(tool) => ToolView::Hosted(tool),
            },
    )
}

fn declarations_for_model(
    model: &str,
    declarations: &Vec<FunctionDeclaration>,
    only_non_blocking: bool,
) -> (r: Result<Vec<FunctionDeclaration>, Error>)
    ensures
        !only_non_blocking ==> r is Ok && declarations_view(r->Ok_0@) == declarations_view(
            declarations@,
        ),
        only_non_blocking ==> {
            let error = declarations_error(model@, declarations_view(declarations@));
            &&& r is Ok <==> error is None
            &&& r matches Ok(d) ==> declarations_view(d@) == non_blocking(
                declarations_view(declarations@),
            )
            &&& r matches Err(e) ==> e@ == seq![error->0]
        },
{
    let mut r: Vec<FunctionDeclaration> = Vec::new();
    let ghost all = declarations_view(declarations@);
    let mut i: usize = 0;
    while i < declarations.len()
        invariant
            i <= declarations@.len(),
            all == declarations_view(declarations@),
            !only_non_blocking ==> declarations_view(r@) == all.take(i as int),
            only_non_blocking ==> declarations_view(r@) == non_blocking(all.take(i as int)),
            only_non_blocking ==> declarations_error(model@, all.take(i as int)) is None,
        decreases declarations@.len() - i,
    {
        let mut declaration = declarations[i].copy();
        proof {
            assert(all.take(i + 1).drop_last() =~= all.take(i as int));
            assert(all.take(i + 1).last() == declaration@);
            if only_non_blocking {
                lemma_first_declaration_error(model@, all, i + 1);
            }
        }
        if only_non_blocking {
            if declaration.scheduling.is_some() {
                return Err(
                    model_error(model, "` does not support function declaration scheduling"),
                );
            }
            match declaration.behavior {
                Some(FunctionBehavior::Blocking) => {
                    return Err(
                        model_error(model, "` requires non-blocking function declarations"),
                    );
                },
                _ => {},
            }
            declaration.behavior = Some(FunctionBehavior::NonBlocking);
        }
        let ghost before = declarations_view(r@);
        let ghost added = declaration@;
        r.push(declaration);
        proof {
            assert(declarations_view(r@) =~= before.push(added));
            if only_non_blocking {
                assert(non_blocking(all.take(i + 1)) =~= non_blocking(all.take(i as int)).push(
                    added,
                ));
            } else {
                assert(all.take(i + 1) =~= all.take(i as int).push(added));
            }
        }
        i += 1;
    }
    assert(all.take(i as int) =~= all);
    Ok(r)
}

proof fn lemma_first_declaration_error(model: Seq<char>, all: Seq<DeclarationView>, n: int)
    requires
        0 <= n <= all.len(),
    ensures
        declarations_error(model, all.take(n)) is Some ==> declarations_error(model, all)
            == declarations_error(model, all.take(n)),
    decreases all.len() - n,
{
    if n < all.len() {
        lemma_first_declaration_error(model, all, n + 1);
        assert(all.take(n + 1).drop_last() =~= all.take(n));
    } else {
        assert(all.take(n) =~= all);
    }
}

proof fn lemma_first_tool_error(model: Seq<char>, all: Seq<ToolView>, n: int)
    requires
        0 <= n <= all.len(),
    ensures
        tools_error(model, all.take(n)) is Some ==> tools_error(model, all) == tools_error(
            model,
            all.take(n),
        ),
    decreases all.len() - n,
{
    if n < all.len() {
        lemma_first_tool_error(model, all, n + 1);
        assert(all.take(n + 1).drop_last() =~= all.take(n));
    } else {
        assert(all.take(n) =~= all);
    }
}

/// The tools for a model. A model that accepts non-blocking functions only gets functions that do
/// not say how they behave as non-blocking ones, and refuses the others.
pub fn tools_for_model(model: &str, input_tools: &Vec<Tool>) -> (r: Result<Vec<Tool>, Error>)
    ensures
        !non_blocking_only(model@) ==> r is Ok && tools_view(r->Ok_0@) == tools_view(input_tools@),
        non_blocking_only(model@) ==> {
            let error = tools_error(model@, tools_view(input_tools@));
            &&& r is Ok <==> error is None
            &&& r matches Ok(t) ==> tools_view(t@) == non_blocking_tools(tools_view(input_tools@))
            &&& r matches Err(e) ==> e@ == seq![error->0]
        },
{
    let only_non_blocking = match model_config(model) {
        Some(config) => config.functions == FunctionPolicy::NonBlockingOnly,
        None => false,
    };
    let mut r: Vec<Tool> = Vec::new();
    let ghost all = tools_view(input_tools@);
    let mut i: usize = 0;
    while i < input_tools.len()
        invariant
            i <= input_tools@.len(),
            only_non_blocking == non_blocking_only(model@),
            all == tools_view(input_tools@),
            !only_non_blocking ==> tools_view(r@) == all.take(i as int),
            only_non_blocking ==> tools_view(r@) == non_blocking_tools(all.take(i as int)),
            only_non_blocking ==> tools_error(model@, all.take(i as int)) is None,
        decreases input_tools@.len() - i,
    {
        proof {
            assert(all.take(i + 1).drop_last() =~= all.take(i as int));
            assert(all.take(i + 1).last() == input_tools@[i as int]@);
            if only_non_blocking {
                lemma_first_tool_error(model@, all, i + 1);
            }
        }
        let tool = match &input_tools[i] {
            Tool::FunctionDeclarations(declarations) => match declarations_for_model(
                model,
                declarations,
                only_non_blocking,
            ) {
                Ok(declarations) => Tool::FunctionDeclarations(declarations),
                Err(error) => return Err(error),
            },
            Tool::Hosted(tool) => Tool::Hosted(clone_json(tool)),
        };
        let ghost before = tools_view(r@);
        let ghost added = tool@;
        r.push(tool);
        proof {
            assert(tools_view(r@) =~= before.push(added));
            if only_non_blocking {
                assert(non_blocking_tools(all.take(i + 1)) =~= non_blocking_tools(
                    all.take(i as int),
                ).push(added));
            } else {
                assert(all.take(i + 1) =~= all.take(i as int).push(added));
            }
        }
        i += 1;
    }
    assert(all.take(i as int) =~= all);
    Ok(r)
}

/// The first of the functions that has the given name.
pub open spec fn named(declarations: Seq<DeclarationView>, name: Seq<char>) -> Option<
    DeclarationView,
>
    decreases declarations.len(),
{
    if declarations.len() == 0 {
        None
    } else if declarations[0].name == name {
        Some(declarations[0])
    } else {
        named(declarations.drop_first(), name)
    }
}

/// How the function with the given name behaves, as far as the first tool that says so tells.
pub open spec fn behavior_of(tools: Seq<ToolView>, name: Seq<char>) -> Option<FunctionBehavior>
    decreases tools.len(),
{
    if tools.len() == 0 {
        None
    } else {
        let rest = behavior_of(tools.drop_first(), name);
        match tools[0] {
            ToolView::FunctionDeclarations(declarations) => match named(declarations, name) {
                Some(declaration) => if declaration.behavior is Some {
                    declaration.behavior
                } else {
                    rest
                },
                None => rest,
            },
            ToolView::Hosted(_) => rest,
        }
    }
}

fn behavior_in(declarations: &Vec<FunctionDeclaration>, name: &str) -> (r: Option<FunctionBehavior>)
    ensures
        r == match named(declarations_view(declarations@), name@) {
            Some(declaration) => declaration.behavior,
            None => None,
        },
{
    let ghost all = declarations_view(declarations@);
    let mut i: usize = 0;
    assert(all.skip(0) =~= all);
    while i < declarations.len()
        invariant
            i <= declarations@.len(),
            all == declarations_view(declarations@),
            named(all, name@) == named(all.skip(i as int), name@),
        decreases declarations@.len() - i,
    {
        proof {
            assert(all.skip(i as int)[0] == declarations@[i as int]@);
            assert(all.skip(i as int).drop_first() =~= all.skip(i + 1));
        }
        if same_text(declarations[i].name.as_str(), name) {
            return declarations[i].behavior;
        }
        i += 1;
    }
    None
}

/// How the function with the given name behaves, if the tools say so.
pub fn function_behavior(tools: &Vec<Tool>, function_name: &str) -> (r: Option<FunctionBehavior>)
    ensures
        r == behavior_of(tools_view(tools@), function_name@),
{
    let ghost all = tools_view(tools@);
    let mut i: usize = 0;
    assert(all.skip(0) =~= all);
    while i < tools.len()
        invariant
            i <= tools@.len(),
            all == tools_view(tools@),
            behavior_of(all, function_name@) == behavior_of(all.skip(i as int), function_name@),
        decreases tools@.len() - i,
    {
        proof {
            assert(all.skip(i as int)[0] == tools@[i as int]@);
            assert(all.skip(i as int).drop_first() =~= all.skip(i + 1));
        }
        match &tools[i] {
            Tool::FunctionDeclarations(declarations) => {
                let behavior = behavior_in(declarations, function_name);
                if behavior.is_some() {
                    return behavior;
                }
            },
            Tool::Hosted(_) => {},
        }
        i += 1;
    }
    None
}

/// What is wrong with a result that says when it is taken up, if anything.
pub open spec fn scheduling_error(
    model: Seq<char>,
    tools: Seq<ToolView>,
    function_name: Seq<char>,
    scheduling: Option<FunctionResponseScheduling>,
) -> Option<Seq<char>> {
    match (known_model(model), scheduling) {
        (Some(config), Some(_)) => match config.response_scheduling {
            SchedulingPolicy::Unsupported => Some(
                model_complaint(model, "` does not support function response scheduling"@),
            ),
            SchedulingPolicy::SupportedForNonBlocking => if behavior_of(tools, function_name)
                == Some(FunctionBehavior::NonBlocking) {
                None
            } else {
                Some(
                    "Function response scheduling is not valid for blocking function `"@
                        + function_name + "`"@,
                )
            },
        },
        _ => None,
    }
}

/// Checks that a result may say when it is taken up. A function that does not say how it behaves is
/// taken to block.
pub fn validate_response_scheduling(
    params: &Params,
    function_name: &str,
    scheduling: Option<FunctionResponseScheduling>,
) -> (r: Result<(), Error>)
    ensures
        ({
            let error = scheduling_error(
                params.model@,
                tools_view(params.tools@),
                function_name@,
                scheduling,
            );
            &&& r is Ok <==> error is None
            &&& r matches Err(e) ==> e@ == seq![error->0]
        }),
{
    if scheduling.is_none() {
        return Ok(());
    }
    let config = match model_config(params.model.as_str()) {
        Some(config) => config,
        None => return Ok(()),
    };
    match config.response_scheduling {
        SchedulingPolicy::Unsupported => Err(
            model_error(
                params.model.as_str(),
                "` does not support function response scheduling",
            ),
        ),
        SchedulingPolicy::SupportedForNonBlocking => match function_behavior(
            &params.tools,
            function_name,
        ) {
            Some(FunctionBehavior::NonBlocking) => Ok(()),
            _ => Err(
                Error::from_text(
                    concat3(
                        "Function response scheduling is not valid for blocking function `",
                        function_name,
                        "`",
                    ),
                ),
            ),
        },
    }
}

/// A model that is not known accepts everything as it is.
pub proof fn law_unknown_models_are_not_checked(
    model: Seq<char>,
    level: Option<ThinkingLevel>,
    tools: Seq<ToolView>,
    function_name: Seq<char>,
    scheduling: Option<FunctionResponseScheduling>,
)
    requires
        known_model(model) is None,
    ensures
        thinking_error(model, level) is None,
        !non_blocking_only(model),
        scheduling_error(model, tools, function_name, scheduling) is None,
{
}

proof fn lemma_non_blocking_declarations(model: Seq<char>, declarations: Seq<DeclarationView>)
    requires
        declarations_error(model, declarations) is None,
    ensures
        declarations_error(model, non_blocking(declarations)) is None,
        non_blocking(non_blocking(declarations)) == non_blocking(declarations),
    decreases declarations.len(),
{
    if declarations.len() > 0 {
        lemma_non_blocking_declarations(model, declarations.drop_last());
        assert(non_blocking(declarations).drop_last() =~= non_blocking(declarations.drop_last()));
    }
    assert(non_blocking(non_blocking(declarations)) =~= non_blocking(declarations));
}

/// Tools that were made to fit a model that accepts non-blocking functions only fit it, and fitting
/// them again changes nothing.
pub proof fn law_fitted_tools_fit(model: Seq<char>, tools: Seq<ToolView>)
    requires
        tools_error(model, tools) is None,
    ensures
        tools_error(model, non_blocking_tools(tools)) is None,
        non_blocking_tools(non_blocking_tools(tools)) == non_blocking_tools(tools),
    decreases tools.len(),
{
    if tools.len() > 0 {
        law_fitted_tools_fit(model, tools.drop_last());
        assert(non_blocking_tools(tools).drop_last() =~= non_blocking_tools(tools.drop_last()));
        match tools.last() {
            ToolView::FunctionDeclarations(declarations) => {
                lemma_non_blocking_declarations(model, declarations);
            },
            ToolView::Hosted(_) => {},
        }
    }
    assert forall|i: int| 0 <= i < tools.len() implies non_blocking_tools(
        non_blocking_tools(tools),
    )[i] == non_blocking_tools(tools)[i] by {
        match tools[i] {
            ToolView::FunctionDeclarations(declarations) => {
                assert(non_blocking(non_blocking(declarations)) =~= non_blocking(declarations));
            },
            ToolView::Hosted(_) => {},
        }
    }
    assert(non_blocking_tools(non_blocking_tools(tools)) =~= non_blocking_tools(tools));
}

} // verus!
