//! The form controls of a view that the library draws: the theme picker, the
//! floating action button, the file drop zone, the checkbox and the toggle.
use vstd::prelude::*;
use crate::context::ComposeReactiveContext;
use crate::forms::{
    checkbox_line, dropzone_line, render_compose_checkbox, render_compose_dropzone, render_compose_theme_select,
    render_compose_toggle, theme_select_line, toggle_line, CheckboxProps, DropzoneProps, ThemeSelectProps, ToggleProps,
};
use crate::layout::ComposeFlow;
use crate::shell::{fab_text, render_compose_fab, FabAction, FabProps};

verus! {

/// A form control node with its properties (and, for a floating action button,
/// its actions).
#[derive(Debug, Clone)]
pub enum FormNode {
    SelectTheme { props: ThemeSelectProps },
    Fab { props: FabProps, actions: Vec<FabAction> },
    Dropzone { props: DropzoneProps },
    Checkbox { props: CheckboxProps },
    Toggle { props: ToggleProps },
}

/// The Compose code of a form control: the call of its component, at `indent`.
/// A floating action button is drawn with no signal for its open state; a theme
/// picker fills the rest of a row when it is laid out inline without a width.
pub open spec fn form_node_text(node: FormNode, indent: usize, flow: ComposeFlow, context: ComposeReactiveContext) -> Seq<char> {
    match node {
        FormNode::SelectTheme { props } => theme_select_line(props, indent, flow),
        FormNode::Fab { props, actions } => fab_text(props, actions@, indent, context, None),
        FormNode::Dropzone { props } => dropzone_line(props, indent),
        FormNode::Checkbox { props } => checkbox_line(props, indent, context),
        FormNode::Toggle { props } => toggle_line(props, indent, context),
    }
}

/// Writes the Compose code of a form control at `indent`.
pub fn render_compose_form_node(
    node: &FormNode,
    indent: usize,
    output: &mut String,
    flow: ComposeFlow,
    context: &ComposeReactiveContext,
)
    requires
        indent + 16 <= usize::MAX,
    ensures
        final(output)@ == old(output)@ + form_node_text(*node, indent, flow, *context),
{
    match node {
        FormNode::SelectTheme { props } => render_compose_theme_select(props, indent, output, flow),
        FormNode::Fab { props, actions } => render_compose_fab(props, actions.as_slice(), indent, output, context, None),
        FormNode::Dropzone { props } => render_compose_dropzone(props, indent, output),
        FormNode::Checkbox { props } => render_compose_checkbox(props, indent, output, context),
        FormNode::Toggle { props } => render_compose_toggle(props, indent, output, context),
    }
}

} // verus!
