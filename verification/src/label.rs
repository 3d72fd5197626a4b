//! Human-readable labels for the GPU objects the library creates, built
//! from an optional caller-supplied prefix.

use vstd::prelude::*;

verus! {

#[derive(Debug, Clone, Copy)]
pub enum NeedleLabel<'a> {
    ImguiWindow(&'a str),
    Device(&'a str),
    PipelineLayout(&'a str),
    Pipeline(&'a str),
    CommandEncoder(&'a str),
    RenderPass(&'a str),
    Renderer(&'a str),
    Shader(&'a str),
    Texture(&'a str),
    VertexBuffer(&'a str),
    IndexBuffer(&'a str),
    UniformBuffer(&'a str),
    BindGroupLayout(&'a str),
    BindGroup(&'a str),
}

/// The full label: the object kind's name alone when the prefix is empty,
/// and otherwise the prefix followed by the kind's suffix. A pipeline
/// without a prefix is called a render pipeline.
pub open spec fn spec_label_text(l: NeedleLabel) -> Seq<char> {
    match l {
        NeedleLabel::ImguiWindow(p) => if p@.len() == 0 {
            "Imgui Window"@
        } else {
            p@ + " Imgui Window"@
        },
        NeedleLabel::Device(p) => if p@.len() == 0 {
            "Device"@
        } else {
            p@ + " Device"@
        },
        NeedleLabel::PipelineLayout(p) => if p@.len() == 0 {
            "Pipeline Layout"@
        } else {
            p@ + " Pipeline Layout"@
        },
        NeedleLabel::Pipeline(p) => if p@.len() == 0 {
            "Render Pipeline"@
        } else {
            p@ + " Pipeline"@
        },
        NeedleLabel::CommandEncoder(p) => if p@.len() == 0 {
            "Command Encoder"@
        } else {
            p@ + " Command Encoder"@
        },
        NeedleLabel::RenderPass(p) => if p@.len() == 0 {
            "Render Pass"@
        } else {
            p@ + " Render Pass"@
        },
        NeedleLabel::Renderer(p) => if p@.len() == 0 {
            "Renderer"@
        } else {
            p@ + " Renderer"@
        },
        NeedleLabel::Shader(p) => if p@.len() == 0 {
            "Shader"@
        } else {
            p@ + " Shader"@
        },
        NeedleLabel::Texture(p) => if p@.len() == 0 {
            "Texture"@
        } else {
            p@ + " Texture"@
        },
        NeedleLabel::VertexBuffer(p) => if p@.len() == 0 {
            "Vertex Buffer"@
        } else {
            p@ + " Vertex Buffer"@
        },
        NeedleLabel::IndexBuffer(p) => if p@.len() == 0 {
            "Index Buffer"@
        } else {
            p@ + " Index Buffer"@
        },
        NeedleLabel::UniformBuffer(p) => if p@.len() == 0 {
            "Uniform Buffer"@
        } else {
            p@ + " Uniform Buffer"@
        },
        NeedleLabel::BindGroupLayout(p) => if p@.len() == 0 {
            "Bind Group Layout"@
        } else {
            p@ + " Bind Group Layout"@
        },
        NeedleLabel::BindGroup(p) => if p@.len() == 0 {
            "Bind Group"@
        } else {
            p@ + " Bind Group"@
        },
    }
}

impl<'a> NeedleLabel<'a> {
    /// Renders the label; see [`spec_label_text`].
    pub fn text(&self) -> (r: String)
        ensures
            r@ == spec_label_text(*self),
    {
        match self {
            NeedleLabel::ImguiWindow(p) => label_with(p, "Imgui Window", " Imgui Window"),
            NeedleLabel::Device(p) => label_with(p, "Device", " Device"),
            NeedleLabel::PipelineLayout(p) => label_with(p, "Pipeline Layout", " Pipeline Layout"),
            NeedleLabel::Pipeline(p) => label_with(p, "Render Pipeline", " Pipeline"),
            NeedleLabel::CommandEncoder(p) => label_with(p, "Command Encoder", " Command Encoder"),
            NeedleLabel::RenderPass(p) => label_with(p, "Render Pass", " Render Pass"),
            NeedleLabel::Renderer(p) => label_with(p, "Renderer", " Renderer"),
            NeedleLabel::Shader(p) => label_with(p, "Shader", " Shader"),
            NeedleLabel::Texture(p) => label_with(p, "Texture", " Texture"),
            NeedleLabel::VertexBuffer(p) => label_with(p, "Vertex Buffer", " Vertex Buffer"),
            NeedleLabel::IndexBuffer(p) => label_with(p, "Index Buffer", " Index Buffer"),
            NeedleLabel::UniformBuffer(p) => label_with(p, "Uniform Buffer", " Uniform Buffer"),
            NeedleLabel::BindGroupLayout(p) => label_with(
                p,
                "Bind Group Layout",
                " Bind Group Layout",
            ),
            NeedleLabel::BindGroup(p) => label_with(p, "Bind Group", " Bind Group"),
        }
    }
}

/// Joins an optional prefix with an object kind's name: the bare name when
/// the prefix is empty, the prefix followed by the suffix otherwise.
fn label_with(prefix: &str, bare: &'static str, suffix: &'static str) -> (r: String)
    ensures
        prefix@.len() == 0 ==> r@ == bare@,
        prefix@.len() > 0 ==> r@ == prefix@ + suffix@,
{
    if prefix.is_empty() {
        String::from_str(bare)
    } else {
        let mut r = String::from_str(prefix);
        r.append(suffix);
        r
    }
}

} // verus!
