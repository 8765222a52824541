//! The shape of the UI component that is generated for an engine setup function.
//!
//! A setup function takes the engine application as its first parameter. Every
//! further parameter is a reactive signal that the component watches and sends
//! on to the renderer. Reading the function and writing the component is the
//! generator's work; what the component looks like is decided here.

use vstd::prelude::*;
use vstd::string::*;
use crate::naming::{pascal_case, to_pascal_case};

verus! {

/// What is generated for one setup function.
pub struct ComponentPlan {
    /// Name of the component: the function's name in `PascalCase`.
    pub component_name: String,
    /// Name of the properties struct; only a component with signals has one.
    pub props_name: Option<String>,
    /// Name of the parameter that receives the engine application.
    pub app_param: Option<String>,
    /// Names of the signal parameters, in order. Each becomes a property and
    /// gets an effect that sends its value under its name.
    pub signal_params: Vec<String>,
    /// The function returns a value, which is taken for a message handler.
    pub has_message_handler: bool,
}

/// The name of the properties struct of a component.
pub open spec fn props_name_of(component_name: Seq<char>) -> Seq<char> {
    component_name + "Props"@
}

/// `plan` is the plan for a function called `fn_name` whose parameters are
/// called `params`, in order, and which returns a value or not.
pub open spec fn is_plan_for(
    plan: ComponentPlan,
    fn_name: Seq<char>,
    params: Seq<String>,
    has_return: bool,
) -> bool {
    &&& plan.component_name@ == pascal_case(fn_name)
    &&& plan.app_param == if params.len() > 0 {
        Some(params[0])
    } else {
        None
    }
    &&& plan.signal_params@ == if params.len() > 0 {
        params.skip(1)
    } else {
        params
    }
    &&& match plan.props_name {
        Some(name) => params.len() > 1 && name@ == props_name_of(pascal_case(fn_name)),
        None => params.len() <= 1,
    }
    &&& plan.has_message_handler == has_return
}

/// Plans the component for a setup function: the first parameter is the engine
/// application, the others are signals; the component is named after the
/// function, and has a properties struct exactly if there are signals.
pub fn plan_component(fn_name: &str, params: &Vec<String>, has_return: bool) -> (plan:
    ComponentPlan)
    ensures
        is_plan_for(plan, fn_name@, params@, has_return),
{
    let component_name = to_pascal_case(fn_name);
    let app_param = if params.len() > 0 {
        Some(params[0].clone())
    } else {
        None
    };
    let mut signal_params: Vec<String> = Vec::new();
    let mut i: usize = 1;
    while i < params.len()
        invariant
            1 <= i,
            i <= params.len() || params.len() == 0,
            params.len() > 0 ==> signal_params@ == params@.subrange(1, i as int),
            params.len() == 0 ==> signal_params@ == params@,
        decreases params.len() - i,
    {
        signal_params.push(params[i].clone());
        assert(params@.subrange(1, i as int).push(params@[i as int]) =~= params@.subrange(
            1,
            i + 1,
        ));
        i = i + 1;
    }
    let props_name = if signal_params.len() > 0 {
        let mut name = component_name.clone();
        name.append("Props");
        Some(name)
    } else {
        None
    };
    ComponentPlan {
        component_name,
        props_name,
        app_param,
        signal_params,
        has_message_handler: has_return,
    }
}

} // verus!
