use vstd::prelude::*;

use crate::screen::{apply, next_screen, ScreenOptions};
use crate::text::{
    datetime_spec, datetime_text, footer_spec, footer_text, header_spec, header_text, CalendarTime,
};
use crate::types::{PinMap, HEIGHT, WIDTH};
use crate::wrap::{
    columns, fits_whole, lemma_list_within_region, lemma_text_within_region, line_views, list_lines, placed,
    within, text_lines, texts, wrap_and_clip, wrap_and_clip_list,
    GlyphMetrics, LayoutLine, Region,
};

verus! {

/// A colour as red, green and blue intensities.
#[derive(Debug, Clone, Copy, PartialEq, Eq, Structural)]
pub struct Color {
    pub r: u8,
    pub g: u8,
    pub b: u8,
}

/// The two monospace fonts of the display.
#[derive(Debug, Clone, Copy, PartialEq, Eq, Structural)]
pub enum FontSize {
    /// Glyph cells of 6 by 10 pixels.
    Small,
    /// Glyph cells of 10 by 20 pixels.
    Large,
}

impl FontSize {
    pub open spec fn spec_metrics(self) -> GlyphMetrics {
        match self {
            FontSize::Small => GlyphMetrics { width: 6, height: 10 },
            FontSize::Large => GlyphMetrics { width: 10, height: 20 },
        }
    }

    /// The glyph cell of the font.
    pub fn metrics(self) -> (r: GlyphMetrics)
        ensures
            r == self.spec_metrics(),
            r.wf(),
    {
        match self {
            FontSize::Small => GlyphMetrics { width: 6, height: 10 },
            FontSize::Large => GlyphMetrics { width: 10, height: 20 },
        }
    }
}

/// A font and the colour its glyphs are drawn in.
#[derive(Debug, Clone, Copy, PartialEq, Eq, Structural)]
pub struct TextStyle {
    pub font: FontSize,
    pub color: Color,
}

/// The styles and background colours of the three regions.
#[derive(Debug, Clone, Copy, PartialEq, Eq, Structural)]
pub struct ThemeSchema {
    pub body_text_style: TextStyle,
    pub headline_text_style: TextStyle,
    pub header_background_color: Color,
    pub body_background_color: Color,
    pub footer_background_color: Color,
}

/// White glyphs, small in the bars and on the metrics list, large elsewhere;
/// a dark violet header, a dark slate gray body and a black footer.
pub open spec fn default_theme() -> ThemeSchema {
    ThemeSchema {
        body_text_style: TextStyle { font: FontSize::Small, color: Color { r: 255, g: 255, b: 255 } },
        headline_text_style: TextStyle {
            font: FontSize::Large,
            color: Color { r: 255, g: 255, b: 255 },
        },
        header_background_color: Color { r: 148, g: 0, b: 211 },
        body_background_color: Color { r: 47, g: 79, b: 79 },
        footer_background_color: Color { r: 0, g: 0, b: 0 },
    }
}

impl ThemeSchema {
    pub fn new() -> (r: ThemeSchema)
        ensures
            r == default_theme(),
    {
        let white = Color { r: 255, g: 255, b: 255 };
        ThemeSchema {
            body_text_style: TextStyle { font: FontSize::Small, color: white },
            headline_text_style: TextStyle { font: FontSize::Large, color: white },
            header_background_color: Color { r: 148, g: 0, b: 211 },
            body_background_color: Color { r: 47, g: 79, b: 79 },
            footer_background_color: Color { r: 0, g: 0, b: 0 },
        }
    }
}

/// What one region shows: the region is cleared to its background, then each
/// line is drawn in the style.
pub struct RegionDraw {
    pub area: Region,
    pub background: Color,
    pub style: TextStyle,
    pub lines: Vec<LayoutLine>,
}

/// The contents of a [`RegionDraw`].
pub struct RegionPlan {
    pub area: Region,
    pub background: Color,
    pub style: TextStyle,
    pub lines: Seq<(Seq<char>, u32, u32)>,
}

impl View for RegionDraw {
    type V = RegionPlan;

    open spec fn view(&self) -> RegionPlan {
        RegionPlan {
            area: self.area,
            background: self.background,
            style: self.style,
            lines: line_views(self.lines@),
        }
    }
}

/// The view of each region of a frame.
pub open spec fn plans(v: Seq<RegionDraw>) -> Seq<RegionPlan> {
    v.map_values(|d: RegionDraw| d@)
}

/// A region showing `text` laid out in `style`.
pub open spec fn text_plan(area: Region, text: Seq<char>, style: TextStyle, background: Color) -> RegionPlan {
    let glyph = style.font.spec_metrics();
    RegionPlan {
        area,
        background,
        style,
        lines: placed(text_lines(text, columns(area, glyph)), area, glyph),
    }
}

/// A region showing the entries of `list` laid out in `style`.
pub open spec fn list_plan(area: Region, list: Seq<Seq<char>>, style: TextStyle, background: Color) -> RegionPlan {
    let glyph = style.font.spec_metrics();
    RegionPlan {
        area,
        background,
        style,
        lines: placed(list_lines(list, columns(area, glyph)), area, glyph),
    }
}

/// Lays `text` out in `area`, to be drawn over `background_color`.
pub fn draw_text(area: &Region, text: &str, text_style: TextStyle, background_color: Color) -> (r:
    RegionDraw)
    requires
        area.wf(),
    ensures
        r@ == text_plan(*area, text@, text_style, background_color),
        fits_whole(text@, columns(*area, text_style.font.spec_metrics())) ==> r@.lines == placed(
            seq![text@],
            *area,
            text_style.font.spec_metrics(),
        ),
{
    let glyph = text_style.font.metrics();
    let lines = wrap_and_clip(text, *area, glyph);
    RegionDraw { area: *area, background: background_color, style: text_style, lines }
}

/// Lays the entries of `list` out in `area`, to be drawn over
/// `background_color`.
pub fn draw_list(area: &Region, list: &Vec<String>, text_style: TextStyle, background_color: Color) -> (r:
    RegionDraw)
    requires
        area.wf(),
    ensures
        r@ == list_plan(*area, texts(list@), text_style, background_color),
        (forall|j: int|
            0 <= j < list@.len() ==> fits_whole(
                #[trigger] list@[j]@,
                columns(*area, text_style.font.spec_metrics()),
            )) ==> r@.lines == placed(texts(list@), *area, text_style.font.spec_metrics()),
{
    let glyph = text_style.font.metrics();
    let lines = wrap_and_clip_list(list, *area, glyph);
    RegionDraw { area: *area, background: background_color, style: text_style, lines }
}

/// The uptime, OS version and time of day that one frame shows.
pub struct ClockReading {
    pub uptime_secs: u64,
    pub os_version: String,
    pub now: CalendarTime,
}

/// The active screen, the display's area and the theme the frames are drawn
/// with.
pub struct LayoutManager {
    pub screen_area: Region,
    pub theme: ThemeSchema,
    pub current_screen: ScreenOptions,
}

/// The text shown on the menu screen.
pub open spec fn menu_heading() -> Seq<char> {
    "Menu Screen"@
}

impl LayoutManager {
    /// The area fits in the coordinate space and has room for a header, a
    /// footer and a body in either text style, and a body never reaches into
    /// the footer.
    pub open spec fn wf(self) -> bool {
        &&& self.screen_area.wf()
        &&& self.bar_height() * 2 <= self.screen_area.height
        &&& self.fits_body(self.theme.body_text_style)
        &&& self.fits_body(self.theme.headline_text_style)
    }

    /// A body in `style` fits in the area and ends above the footer.
    pub open spec fn fits_body(self, style: TextStyle) -> bool {
        &&& self.bar_height() <= 2 * style.font.spec_metrics().height
        &&& 2 * style.font.spec_metrics().height + self.bar_height() <= self.screen_area.height
    }

    /// The style of the current screen's body: small on the system
    /// information list, large elsewhere.
    pub open spec fn body_style(self) -> TextStyle {
        if self.current_screen == ScreenOptions::SystemInfo {
            self.theme.body_text_style
        } else {
            self.theme.headline_text_style
        }
    }

    /// The height of the header and of the footer: one small line and a margin.
    pub open spec fn bar_height(self) -> int {
        self.theme.body_text_style.font.spec_metrics().height + 10
    }

    /// The header: a bar across the top of the area.
    pub open spec fn header_area(self) -> Region {
        Region {
            x: self.screen_area.x,
            y: self.screen_area.y,
            width: self.screen_area.width,
            height: self.bar_height() as u32,
        }
    }

    /// The footer: a bar across the bottom of the area.
    pub open spec fn footer_area(self) -> Region {
        Region {
            x: self.screen_area.x,
            y: (self.screen_area.y + self.screen_area.height - self.bar_height()) as u32,
            width: self.screen_area.width,
            height: self.bar_height() as u32,
        }
    }

    /// The body for text in `style`: below the header, as high as the area
    /// less two glyph heights and one bar.
    pub open spec fn body_area(self, style: TextStyle) -> Region {
        Region {
            x: self.screen_area.x,
            y: (self.screen_area.y + self.bar_height()) as u32,
            width: self.screen_area.width,
            height: (self.screen_area.height - 2 * style.font.spec_metrics().height
                - self.bar_height()) as u32,
        }
    }

    /// What the header shows.
    pub open spec fn header_plan(self, uptime: u64, version: Seq<char>) -> RegionPlan {
        text_plan(
            self.header_area(),
            header_spec(uptime as nat, version),
            self.theme.body_text_style,
            self.theme.header_background_color,
        )
    }

    /// What the footer shows.
    pub open spec fn footer_plan(self) -> RegionPlan {
        text_plan(
            self.footer_area(),
            footer_spec(self.current_screen),
            self.theme.body_text_style,
            self.theme.footer_background_color,
        )
    }

    /// What the body shows on the current screen.
    pub open spec fn body_plan(self, now: CalendarTime, metrics: Seq<Seq<char>>) -> RegionPlan {
        match self.current_screen {
            ScreenOptions::Home => text_plan(
                self.body_area(self.theme.headline_text_style),
                datetime_spec(now),
                self.theme.headline_text_style,
                self.theme.body_background_color,
            ),
            ScreenOptions::Menu => text_plan(
                self.body_area(self.theme.headline_text_style),
                menu_heading(),
                self.theme.headline_text_style,
                self.theme.body_background_color,
            ),
            ScreenOptions::SystemInfo => list_plan(
                self.body_area(self.theme.body_text_style),
                metrics,
                self.theme.body_text_style,
                self.theme.body_background_color,
            ),
            ScreenOptions::Wifi => text_plan(
                self.body_area(self.theme.headline_text_style),
                Seq::empty(),
                self.theme.headline_text_style,
                self.theme.body_background_color,
            ),
        }
    }

    /// A whole frame: header, footer, then body.
    pub open spec fn frame_plan(
        self,
        uptime: u64,
        version: Seq<char>,
        now: CalendarTime,
        metrics: Seq<Seq<char>>,
    ) -> Seq<RegionPlan> {
        seq![self.header_plan(uptime, version), self.footer_plan(), self.body_plan(now, metrics)]
    }

    /// A manager for the whole display, on the home screen, with the default
    /// theme.
    pub fn new() -> (r: LayoutManager)
        ensures
            r.screen_area == (Region { x: 0, y: 0, width: WIDTH, height: HEIGHT }),
            r.theme == default_theme(),
            r.current_screen == ScreenOptions::Home,
            r.wf(),
    {
        LayoutManager {
            screen_area: Region { x: 0, y: 0, width: WIDTH, height: HEIGHT },
            theme: ThemeSchema::new(),
            current_screen: ScreenOptions::Home,
        }
    }

    /// Applies a key press to the current screen.
    pub fn input(&mut self, key: PinMap)
        ensures
            final(self).current_screen == next_screen(old(self).current_screen, key),
            final(self).screen_area == old(self).screen_area,
            final(self).theme == old(self).theme,
    {
        self.current_screen = apply(self.current_screen, key);
    }

    fn bar_height_exec(&self) -> (r: u32)
        ensures
            r == self.bar_height(),
    {
        self.theme.body_text_style.font.metrics().height + 10
    }

    /// The header: uptime and OS version.
    pub fn create_header(&self, clock: &ClockReading) -> (r: RegionDraw)
        requires
            self.wf(),
        ensures
            r@ == self.header_plan(clock.uptime_secs, clock.os_version@),
    {
        let header_text = header_text(clock.uptime_secs, clock.os_version.as_str());
        let area = Region {
            x: self.screen_area.x,
            y: self.screen_area.y,
            width: self.screen_area.width,
            height: self.bar_height_exec(),
        };
        draw_text(
            &area,
            header_text.as_str(),
            self.theme.body_text_style,
            self.theme.header_background_color,
        )
    }

    /// The footer: the three action labels of the current screen.
    pub fn create_footer(&self) -> (r: RegionDraw)
        requires
            self.wf(),
        ensures
            r@ == self.footer_plan(),
    {
        let footer_text = footer_text(self.current_screen);
        let height = self.bar_height_exec();
        let area = Region {
            x: self.screen_area.x,
            y: self.screen_area.y + self.screen_area.height - height,
            width: self.screen_area.width,
            height,
        };
        draw_text(
            &area,
            footer_text.as_str(),
            self.theme.body_text_style,
            self.theme.footer_background_color,
        )
    }

    fn body_area_exec(&self, style: TextStyle) -> (r: Region)
        requires
            self.wf(),
            self.fits_body(style),
        ensures
            r == self.body_area(style),
            r.wf(),
    {
        let bar = self.bar_height_exec();
        let glyph = style.font.metrics();
        Region {
            x: self.screen_area.x,
            y: self.screen_area.y + bar,
            width: self.screen_area.width,
            height: self.screen_area.height - 2 * glyph.height - bar,
        }
    }

    /// The home screen's body: the date and time.
    pub fn create_home_layout(&self, now: &CalendarTime) -> (r: RegionDraw)
        requires
            self.wf(),
            now.wf(),
        ensures
            r@ == text_plan(
                self.body_area(self.theme.headline_text_style),
                datetime_spec(*now),
                self.theme.headline_text_style,
                self.theme.body_background_color,
            ),
    {
        let area = self.body_area_exec(self.theme.headline_text_style);
        let dt = datetime_text(now);
        draw_text(&area, dt.as_str(), self.theme.headline_text_style, self.theme.body_background_color)
    }

    /// The menu screen's body: its heading.
    pub fn create_menu_layout(&self) -> (r: RegionDraw)
        requires
            self.wf(),
        ensures
            r@ == text_plan(
                self.body_area(self.theme.headline_text_style),
                menu_heading(),
                self.theme.headline_text_style,
                self.theme.body_background_color,
            ),
    {
        let area = self.body_area_exec(self.theme.headline_text_style);
        draw_text(&area, "Menu Screen", self.theme.headline_text_style, self.theme.body_background_color)
    }

    /// The system information screen's body: the metrics, one entry after the
    /// other.
    pub fn create_system_info_layout(&self, metrics: &Vec<String>) -> (r: RegionDraw)
        requires
            self.wf(),
        ensures
            r@ == list_plan(
                self.body_area(self.theme.body_text_style),
                texts(metrics@),
                self.theme.body_text_style,
                self.theme.body_background_color,
            ),
    {
        let area = self.body_area_exec(self.theme.body_text_style);
        draw_list(&area, metrics, self.theme.body_text_style, self.theme.body_background_color)
    }

    /// The wifi screen's body: the cleared region, with no content yet.
    pub fn create_wifi_layout(&self) -> (r: RegionDraw)
        requires
            self.wf(),
        ensures
            r@ == text_plan(
                self.body_area(self.theme.headline_text_style),
                Seq::empty(),
                self.theme.headline_text_style,
                self.theme.body_background_color,
            ),
    {
        let area = self.body_area_exec(self.theme.headline_text_style);
        proof {
            reveal_strlit("");
        }
        draw_text(&area, "", self.theme.headline_text_style, self.theme.body_background_color)
    }

    /// The frame for the current screen: header, footer, then body, each to
    /// be cleared and drawn in that order.
    pub fn draw(&self, clock: &ClockReading, metrics: &Vec<String>) -> (r: Vec<RegionDraw>)
        requires
            self.wf(),
            self.current_screen == ScreenOptions::Home ==> clock.now.wf(),
        ensures
            plans(r@) == self.frame_plan(
                clock.uptime_secs,
                clock.os_version@,
                clock.now,
                texts(metrics@),
            ),
    {
        let header = self.create_header(clock);
        let footer = self.create_footer();
        let body = match self.current_screen {
            ScreenOptions::Home => self.create_home_layout(&clock.now),
            ScreenOptions::Menu => self.create_menu_layout(),
            ScreenOptions::SystemInfo => self.create_system_info_layout(metrics),
            ScreenOptions::Wifi => self.create_wifi_layout(),
        };
        let mut frame: Vec<RegionDraw> = Vec::new();
        frame.push(header);
        frame.push(footer);
        frame.push(body);
        frame
    }
}

/// `inner` lies inside `outer`.
pub open spec fn inside(inner: Region, outer: Region) -> bool {
    &&& outer.x <= inner.x
    &&& inner.x + inner.width <= outer.x + outer.width
    &&& outer.y <= inner.y
    &&& inner.y + inner.height <= outer.y + outer.height
}

/// The header, body and footer lie inside the display's area, in that order
/// from top to bottom, and none overlaps another.
pub proof fn lemma_regions_disjoint(m: LayoutManager)
    requires
        m.wf(),
    ensures
        inside(m.header_area(), m.screen_area),
        inside(m.footer_area(), m.screen_area),
        m.header_area().wf(),
        m.footer_area().wf(),
        m.header_area().y + m.header_area().height <= m.footer_area().y,
        forall|style: TextStyle|
            style == m.theme.body_text_style || style == m.theme.headline_text_style ==> {
                &&& inside(#[trigger] m.body_area(style), m.screen_area)
                &&& m.body_area(style).wf()
                &&& m.header_area().y + m.header_area().height <= m.body_area(style).y
                &&& m.body_area(style).y + m.body_area(style).height <= m.footer_area().y
            },
{
}

/// Every line of every region of a frame lies inside its own region.
pub proof fn lemma_frame_within(
    m: LayoutManager,
    uptime: u64,
    version: Seq<char>,
    now: CalendarTime,
    metrics: Seq<Seq<char>>,
)
    requires
        m.wf(),
    ensures
        forall|k: int|
            0 <= k < 3 ==> within(
                #[trigger] m.frame_plan(uptime, version, now, metrics)[k].lines,
                m.frame_plan(uptime, version, now, metrics)[k].area,
                m.frame_plan(uptime, version, now, metrics)[k].style.font.spec_metrics(),
            ),
{
    let frame = m.frame_plan(uptime, version, now, metrics);
    let small = m.theme.body_text_style.font.spec_metrics();
    let large = m.theme.headline_text_style.font.spec_metrics();
    lemma_regions_disjoint(m);
    lemma_text_within_region(header_spec(uptime as nat, version), m.header_area(), small);
    lemma_text_within_region(footer_spec(m.current_screen), m.footer_area(), small);
    let large_body = m.body_area(m.theme.headline_text_style);
    let small_body = m.body_area(m.theme.body_text_style);
    assert(large_body.wf() && small_body.wf());
    lemma_text_within_region(datetime_spec(now), large_body, large);
    lemma_text_within_region(menu_heading(), large_body, large);
    lemma_text_within_region(Seq::empty(), large_body, large);
    lemma_list_within_region(metrics, small_body, small);
    assert forall|k: int| 0 <= k < 3 implies within(
        #[trigger] frame[k].lines,
        frame[k].area,
        frame[k].style.font.spec_metrics(),
    ) by {
        if k == 0 {
            assert(frame[0] == m.header_plan(uptime, version));
        } else if k == 1 {
            assert(frame[1] == m.footer_plan());
        } else {
            assert(frame[2] == m.body_plan(now, metrics));
        }
    }
}

/// Every frame clears and draws the header and the footer before the body,
/// and a system information screen with no metrics has an empty body.
pub proof fn lemma_bars_always_drawn(
    m: LayoutManager,
    uptime: u64,
    version: Seq<char>,
    now: CalendarTime,
    metrics: Seq<Seq<char>>,
)
    ensures
        m.frame_plan(uptime, version, now, metrics).len() == 3,
        m.frame_plan(uptime, version, now, metrics)[0] == m.header_plan(uptime, version),
        m.frame_plan(uptime, version, now, metrics)[1] == m.footer_plan(),
        m.frame_plan(uptime, version, now, metrics)[2].area == m.body_area(m.body_style()),
        m.current_screen == ScreenOptions::SystemInfo && metrics.len() == 0 ==> m.frame_plan(
            uptime,
            version,
            now,
            metrics,
        )[2].lines.len() == 0,
{
}

/// Drawing is idempotent: two frames drawn from the same screen and the same
/// snapshot of clock and metrics show exactly the same regions, colours and
/// lines.
pub proof fn lemma_render_idempotent(
    m: LayoutManager,
    clock: ClockReading,
    metrics: Seq<String>,
    first: Seq<RegionDraw>,
    second: Seq<RegionDraw>,
)
    requires
        plans(first) == m.frame_plan(clock.uptime_secs, clock.os_version@, clock.now, texts(metrics)),
        plans(second) == m.frame_plan(
            clock.uptime_secs,
            clock.os_version@,
            clock.now,
            texts(metrics),
        ),
    ensures
        plans(first) == plans(second),
{
}

} // verus!
