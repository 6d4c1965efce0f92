//! Description of how a button is drawn: its background and the texts on it.

use vstd::prelude::*;
use crate::button::Component;
use crate::ui::FloatBits;

verus! {

/// Definition for color format: red, green, blue, alpha
pub type Color = (u8, u8, u8, u8);

/// Button Background definition for button renderer
#[derive(Debug)]
pub enum ButtonBackground {
    Solid(Color),
    HorizontalGradient(Color, Color),
    VerticalGradient(Color, Color),
    ExistingImage(String),
    NewImage(String),
}

impl Default for ButtonBackground {
    fn default() -> (r: Self)
        ensures
            r == ButtonBackground::Solid((0u8, 0u8, 0u8, 0u8)),
    {
        ButtonBackground::Solid((0, 0, 0, 0))
    }
}

/// Where text is placed on a button
#[derive(Debug, Clone, Copy, PartialEq, Eq, Structural)]
pub enum TextAlignment {
    TopLeft,
    TopCenter,
    TopRight,
    MiddleLeft,
    Center,
    MiddleRight,
    BottomLeft,
    BottomCenter,
    BottomRight,
}

/// Button text shadow
#[derive(Debug, Clone, Copy)]
pub struct ButtonTextShadow {
    pub offset: (i32, i32),
    pub color: Color,
}

/// Button Text definition for button renderer
#[derive(Debug)]
pub struct ButtonText {
    pub text: String,
    pub font: String,
    /// Horizontal and vertical scale, as bit patterns of 32-bit floats
    pub scale: (FloatBits, FloatBits),
    pub alignment: TextAlignment,
    pub padding: u32,
    /// Horizontal and vertical offset, as bit patterns of 32-bit floats
    pub offset: (FloatBits, FloatBits),
    pub color: Color,
    pub shadow: Option<ButtonTextShadow>,
}

/// Renderer component that contains button background and array of text structs
#[derive(Debug)]
pub struct RendererComponent {
    pub background: ButtonBackground,
    pub text: Vec<ButtonText>,
    pub to_cache: bool,
}

impl Default for RendererComponent {
    fn default() -> (r: Self)
        ensures
            r.background == ButtonBackground::Solid((255u8, 255u8, 255u8, 255u8)),
            r.text@.len() == 0,
            r.to_cache,
    {
        RendererComponent { background: ButtonBackground::Solid((255, 255, 255, 255)), text: Vec::new(), to_cache: true }
    }
}

impl Component for RendererComponent {
    const NAME: &'static str = "renderer";
}

/// Builds a renderer component piece by piece
pub struct RendererComponentBuilder {
    component: RendererComponent,
}

impl RendererComponentBuilder {
    /// Starts from the default renderer component
    pub fn new() -> (r: Self)
        ensures
            r.component().background == ButtonBackground::Solid((255u8, 255u8, 255u8, 255u8)),
            r.component().text@.len() == 0,
            r.component().to_cache,
    {
        RendererComponentBuilder { component: RendererComponent::default() }
    }

    /// The component built so far
    pub closed spec fn component(&self) -> RendererComponent {
        self.component
    }

    /// Sets the background
    pub fn background(self, background: ButtonBackground) -> (r: Self)
        ensures
            r.component().background == background,
            r.component().text == self.component().text,
            r.component().to_cache == self.component().to_cache,
    {
        let mut b = self;
        b.component.background = background;
        b
    }

    /// Adds a text
    pub fn add_text(self, text: ButtonText) -> (r: Self)
        ensures
            r.component().background == self.component().background,
            r.component().text@ == self.component().text@.push(text),
            r.component().to_cache == self.component().to_cache,
    {
        let mut b = self;
        b.component.text.push(text);
        b
    }

    /// Sets whether the rendered image is cached
    pub fn to_cache(self, to_cache: bool) -> (r: Self)
        ensures
            r.component().background == self.component().background,
            r.component().text == self.component().text,
            r.component().to_cache == to_cache,
    {
        let mut b = self;
        b.component.to_cache = to_cache;
        b
    }

    /// The finished component
    pub fn build(self) -> (r: RendererComponent)
        ensures
            r == self.component(),
    {
        self.component
    }
}

/// Renderer settings of the core
#[derive(Debug)]
pub struct RendererSettings {
    /// Names of plugins that may not draw on buttons
    pub plugin_blacklist: Vec<String>,
}

impl Default for RendererSettings {
    fn default() -> (r: Self)
        ensures
            r.plugin_blacklist@.len() == 0,
    {
        RendererSettings { plugin_blacklist: Vec::new() }
    }
}

/// Colour of the missing texture at a pixel: a 16 by 16 checker tile, magenta in its top
/// left and bottom right quarters and black in the others, repeated from the top left corner.
pub open spec fn missing_texture_color(x: int, y: int) -> Color {
    if (x % 16 < 8) == (y % 16 < 8) {
        (255u8, 0u8, 255u8, 255u8)
    } else {
        (0u8, 0u8, 0u8, 255u8)
    }
}

/// The checker pattern of the missing texture for an image of the given size, as rows of
/// pixels from the top; the text drawn over it is left to the renderer
pub fn missing_texture_pattern(size: (usize, usize)) -> (rows: Vec<Vec<Color>>)
    ensures
        rows@.len() == size.1,
        forall|y: int| 0 <= y < size.1 ==> #[trigger] rows@[y]@.len() == size.0,
        forall|x: int, y: int| 0 <= x < size.0 && 0 <= y < size.1 ==> #[trigger] rows@[y]@[x] == missing_texture_color(x, y),
{
    let (width, height) = size;
    let mut rows: Vec<Vec<Color>> = Vec::new();
    let mut y: usize = 0;
    while y < height
        invariant
            y <= height,
            rows@.len() == y,
            forall|j: int| 0 <= j < y ==> #[trigger] rows@[j]@.len() == width,
            forall|i: int, j: int| 0 <= i < width && 0 <= j < y ==> #[trigger] rows@[j]@[i] == missing_texture_color(i, j),
        decreases height - y,
    {
        let mut row: Vec<Color> = Vec::new();
        let mut x: usize = 0;
        while x < width
            invariant
                x <= width,
                row@.len() == x,
                forall|i: int| 0 <= i < x ==> #[trigger] row@[i] == missing_texture_color(i, y as int),
            decreases width - x,
        {
            let c: Color = if (x % 16 < 8) == (y % 16 < 8) {
                (255u8, 0u8, 255u8, 255u8)
            } else {
                (0u8, 0u8, 0u8, 255u8)
            };
            row.push(c);
            x += 1;
        }
        rows.push(row);
        y += 1;
    }
    rows
}

} // verus!
