use vstd::prelude::*;

use crate::camera_edge_detection::RatatuiCameraEdgeDetection;
use crate::camera_strategy::{
    copy_characters, CharactersConfig, DepthConfig, LuminanceConfig, RatatuiCameraStrategy,
};
use crate::cell_buffer::{CellBuffer, Rect};
use crate::raster::{nearest_resize, ColorImage, DepthImage, EdgeImage, MAX_RASTER_DIM};
use crate::widget_depth_buffer::RatatuiCameraDepthBuffer;
use crate::widget_strategy_depth::{spec_depth_render_effect, RatatuiCameraWidgetDepth};
use crate::widget_strategy_halfblocks::{spec_halfblocks_render_effect, RatatuiCameraWidgetHalf};
use crate::widget_strategy_luminance::{
    spec_luminance_render_effect, RatatuiCameraWidgetLuminance,
};
use crate::widget_strategy_none::{spec_edges_only_render_effect, RatatuiCameraWidgetNone};

verus! {

/// A widget holding the last image rendered by a camera, together with the
/// strategy that converts it to terminal cells. Drawn into a cell grid, it
/// converts the image to glyphs and colors using its strategy.
#[derive(Debug)]
pub struct RatatuiCameraWidget {
    /// The camera's rendered image, copied back from the renderer.
    pub camera_image: ColorImage,
    /// The camera's rendered depth values, if depth features are in use.
    pub depth_image: Option<DepthImage>,
    /// The camera's edge-detection raster, if edge detection is in use.
    pub sobel_image: Option<EdgeImage>,
    /// Strategy used to convert the rendered image to glyphs and colors.
    pub strategy: RatatuiCameraStrategy,
    /// Edge-detection settings, if any.
    pub edge_detection: Option<RatatuiCameraEdgeDetection>,
    /// The area the widget was rendered to last frame.
    pub last_area: Rect,
}

impl RatatuiCameraWidget {
    /// Every raster the widget holds is well-formed and at least one pixel in
    /// each direction, and a configured character list is not empty.
    pub open spec fn wf(self) -> bool {
        &&& self.camera_image.wf()
        &&& 1 <= self.camera_image.width
        &&& 1 <= self.camera_image.height
        &&& self.depth_image is Some ==> {
            &&& self.depth_image->0.wf()
            &&& 1 <= self.depth_image->0.width
            &&& 1 <= self.depth_image->0.height
        }
        &&& self.sobel_image is Some ==> {
            &&& self.sobel_image->0.wf()
            &&& 1 <= self.sobel_image->0.width
            &&& 1 <= self.sobel_image->0.height
        }
        &&& self.strategy matches RatatuiCameraStrategy::Luminance(config) ==> 1
            <= config.characters.list@.len() <= 0xFFFF_FFFF
        &&& self.strategy matches RatatuiCameraStrategy::Depth(config) ==> 1
            <= config.characters.list@.len() <= 0xFFFF_FFFF
    }

    /// The image dimensions a camera should render at to fill the given
    /// terminal area: two pixels per cell column and four per cell row.
    pub fn autoresize_dimensions(area: Rect) -> (dimensions: (u32, u32))
        ensures
            dimensions == ((2 * area.width as u32) as u32, (4 * area.height as u32) as u32),
    {
        (area.width as u32 * 2, area.height as u32 * 4)
    }

    /// Decide whether the camera needs a resize before rendering into the
    /// given area: its current render dimensions differ from the dimensions
    /// the area calls for. The host performs the actual resize.
    pub fn needs_resize(&self, dimensions: (u32, u32), area: Rect) -> (resize: bool)
        ensures
            resize == (dimensions != ((2 * area.width as u32) as u32, (4 * area.height as u32) as u32)),
    {
        let target = RatatuiCameraWidget::autoresize_dimensions(area);
        dimensions.0 != target.0 || dimensions.1 != target.1
    }
}


/// The given images are the widget's rasters scaled with nearest-neighbor
/// sampling to fit `area`: one pixel column per cell column and two pixel
/// rows per cell row, with absent rasters staying absent.
pub open spec fn spec_resized_images_of(
    widget: RatatuiCameraWidget,
    area: Rect,
    camera_image: ColorImage,
    depth_image: Option<DepthImage>,
    sobel_image: Option<EdgeImage>,
) -> bool {
    &&& camera_image.wf()
    &&& (camera_image.data@, camera_image.width, camera_image.height) == nearest_resize(
        widget.camera_image.data@,
        widget.camera_image.width,
        widget.camera_image.height,
        area.width as u32,
        (2 * area.height as u32) as u32,
    )
    &&& depth_image is Some <==> widget.depth_image is Some
    &&& widget.depth_image is Some ==> {
        &&& depth_image->0.wf()
        &&& (depth_image->0.data@, depth_image->0.width, depth_image->0.height) == nearest_resize(
            widget.depth_image->0.data@,
            widget.depth_image->0.width,
            widget.depth_image->0.height,
            area.width as u32,
            (2 * area.height as u32) as u32,
        )
    }
    &&& sobel_image is Some <==> widget.sobel_image is Some
    &&& widget.sobel_image is Some ==> {
        &&& sobel_image->0.wf()
        &&& (sobel_image->0.data@, sobel_image->0.width, sobel_image->0.height) == nearest_resize(
            widget.sobel_image->0.data@,
            widget.sobel_image->0.width,
            widget.sobel_image->0.height,
            area.width as u32,
            (2 * area.height as u32) as u32,
        )
    }
}

/// Two character-selection configurations hold the same characters and scale.
pub open spec fn spec_same_characters(a: CharactersConfig, b: CharactersConfig) -> bool {
    a.list@ == b.list@ && a.scale == b.scale
}

impl RatatuiCameraWidget {
    /// Render the widget's image into the buffer: compute the centered,
    /// aspect-ratio-correct render sub-area of `area`, scale the rasters to
    /// fit it, and run the configured conversion strategy there. A sub-area
    /// without any whole cell draws nothing. The depth buffer, when the
    /// caller passes one and a depth raster is present, takes part in
    /// occlusion exactly as the strategy's own contract states.
    pub fn render(
        &self,
        area: Rect,
        buf: &mut CellBuffer,
        depth_buffer: &mut Option<RatatuiCameraDepthBuffer>,
    )
        requires
            self.wf(),
            old(buf).wf(),
            *old(depth_buffer) is Some ==> old(depth_buffer)->0.wf(),
            area.x + area.width <= 0x1_0000,
            area.y + area.height <= 0x1_0000,
            area.width <= MAX_RASTER_DIM,
            2 * area.height <= MAX_RASTER_DIM,
        ensures
            final(buf).wf(),
            final(buf).area == old(buf).area,
            ({
                let render_area = crate::widget_math::spec_render_area(self.camera_image, area);
                &&& !(render_area.width >= 1 && render_area.height >= 1) ==> *final(buf) == *old(
                    buf,
                ) && *final(depth_buffer) == *old(depth_buffer)
                &&& (render_area.width >= 1 && render_area.height >= 1) ==> match self.strategy {
                    RatatuiCameraStrategy::HalfBlocks(config) => exists|
                        widget: RatatuiCameraWidgetHalf,
                    |
                        {
                            &&& #[trigger] widget.wf()
                            &&& spec_resized_images_of(
                                *self,
                                render_area,
                                widget.camera_image,
                                widget.depth_image,
                                widget.sobel_image,
                            )
                            &&& widget.strategy_config == config
                            &&& widget.edge_detection == self.edge_detection
                            &&& spec_halfblocks_render_effect(
                                widget,
                                render_area,
                                *old(buf),
                                *final(buf),
                                *old(depth_buffer),
                                *final(depth_buffer),
                            )
                        },
                    RatatuiCameraStrategy::Luminance(config) => exists|
                        widget: RatatuiCameraWidgetLuminance,
                    |
                        {
                            &&& #[trigger] widget.wf()
                            &&& spec_resized_images_of(
                                *self,
                                render_area,
                                widget.camera_image,
                                widget.depth_image,
                                widget.sobel_image,
                            )
                            &&& spec_same_characters(
                                widget.strategy_config.characters,
                                config.characters,
                            )
                            &&& widget.strategy_config.colors == config.colors
                            &&& widget.strategy_config.common == config.common
                            &&& widget.edge_detection == self.edge_detection
                            &&& spec_luminance_render_effect(
                                widget,
                                render_area,
                                *old(buf),
                                *final(buf),
                                *old(depth_buffer),
                                *final(depth_buffer),
                            )
                        },
                    RatatuiCameraStrategy::Depth(config) => exists|
                        widget: RatatuiCameraWidgetDepth,
                        resized_depth: Option<DepthImage>,
                    |
                        {
                            &&& widget.wf()
                            &&& #[trigger] spec_resized_images_of(
                                *self,
                                render_area,
                                widget.camera_image,
                                resized_depth,
                                widget.sobel_image,
                            )
                            &&& widget.depth_image == (if resized_depth is Some && resized_depth->0.width
                                == widget.camera_image.width && resized_depth->0.height
                                == widget.camera_image.height {
                                resized_depth
                            } else {
                                None::<DepthImage>
                            })
                            &&& spec_same_characters(
                                widget.strategy_config.characters,
                                config.characters,
                            )
                            &&& widget.strategy_config.colors == config.colors
                            &&& widget.strategy_config.common == config.common
                            &&& widget.edge_detection == self.edge_detection
                            &&& spec_depth_render_effect(
                                widget,
                                render_area,
                                *old(buf),
                                *final(buf),
                                *old(depth_buffer),
                                *final(depth_buffer),
                            )
                        },
                    RatatuiCameraStrategy::EdgesOnly => (exists|
                        widget: RatatuiCameraWidgetNone,
                        resized_depth: Option<DepthImage>,
                    |
                        {
                            &&& widget.wf()
                            &&& #[trigger] spec_resized_images_of(
                                *self,
                                render_area,
                                widget.camera_image,
                                resized_depth,
                                widget.sobel_image,
                            )
                            &&& widget.edge_detection == self.edge_detection
                            &&& spec_edges_only_render_effect(
                                widget,
                                render_area,
                                *old(buf),
                                *final(buf),
                            )
                        }) && *final(depth_buffer) == *old(depth_buffer),
                }
            }),
    {
        let render_area = self.calculate_render_area(area);
        if render_area.width == 0 || render_area.height == 0 {
            return ;
        }
        let (camera_image, depth_image, sobel_image) = self.resize_images_to_area(render_area);

        match &self.strategy {
            RatatuiCameraStrategy::HalfBlocks(config) => {
                let widget = RatatuiCameraWidgetHalf::new(
                    camera_image,
                    depth_image,
                    sobel_image,
                    *config,
                    self.edge_detection,
                );
                widget.render(render_area, buf, depth_buffer);
                proof {
                    assert(widget.wf());
                    assert(spec_resized_images_of(
                        *self,
                        render_area,
                        widget.camera_image,
                        widget.depth_image,
                        widget.sobel_image,
                    ));
                }
            },
            RatatuiCameraStrategy::Luminance(config) => {
                let widget = RatatuiCameraWidgetLuminance::new(
                    camera_image,
                    depth_image,
                    sobel_image,
                    LuminanceConfig {
                        common: config.common,
                        characters: CharactersConfig {
                            list: copy_characters(&config.characters.list),
                            scale: config.characters.scale,
                        },
                        colors: config.colors,
                    },
                    self.edge_detection,
                );
                widget.render(render_area, buf, depth_buffer);
                proof {
                    assert(widget.wf());
                    assert(spec_resized_images_of(
                        *self,
                        render_area,
                        widget.camera_image,
                        widget.depth_image,
                        widget.sobel_image,
                    ));
                }
            },
            RatatuiCameraStrategy::Depth(config) => {
                let ghost resized_depth = depth_image;
                let depth_image = match depth_image {
                    Some(image) => {
                        if image.width == camera_image.width && image.height
                            == camera_image.height {
                            Some(image)
                        } else {
                            None
                        }
                    },
                    None => None,
                };
                let widget = RatatuiCameraWidgetDepth::new(
                    camera_image,
                    depth_image,
                    sobel_image,
                    DepthConfig {
                        common: config.common,
                        characters: CharactersConfig {
                            list: copy_characters(&config.characters.list),
                            scale: config.characters.scale,
                        },
                        colors: config.colors,
                    },
                    self.edge_detection,
                );
                widget.render(render_area, buf, depth_buffer);
                proof {
                    assert(widget.wf());
                    assert(spec_resized_images_of(
                        *self,
                        render_area,
                        widget.camera_image,
                        resized_depth,
                        widget.sobel_image,
                    ));
                }
            },
            RatatuiCameraStrategy::EdgesOnly => {
                let widget = RatatuiCameraWidgetNone::new(
                    camera_image,
                    sobel_image,
                    self.edge_detection,
                );
                widget.render(render_area, buf);
                proof {
                    assert(widget.wf());
                    assert(spec_resized_images_of(
                        *self,
                        render_area,
                        widget.camera_image,
                        depth_image,
                        widget.sobel_image,
                    ));
                }
            },
        }
    }
}

} // verus!
