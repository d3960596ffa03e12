<?xml version="1.0" encoding="UTF-8"?>
<interface>
  <requires lib="gtk" version="4.16"/>
  <requires lib="libadwaita" version="1.8"/>
  <menu id="zoom_menu">
    <item>
      <attribute name="label" translatable="yes">Fit to Window (0)</attribute>
      <attribute name="action">win.fit</attribute>
    </item>
    <item>
      <attribute name="label">25%</attribute>
      <attribute name="action">win.zoom-25</attribute>
    </item>
    <item>
      <attribute name="label">50%</attribute>
      <attribute name="action">win.zoom-50</attribute>
    </item>
    <item>
      <attribute name="label">75%</attribute>
      <attribute name="action">win.zoom-75</attribute>
    </item>
    <item>
      <attribute name="label">100% (1)</attribute>
      <attribute name="action">win.zoom-100</attribute>
    </item>
    <item>
      <attribute name="label">200% (2)</attribute>
      <attribute name="action">win.zoom-200</attribute>
    </item>
    <item>
      <attribute name="label">300% (3)</attribute>
      <attribute name="action">win.zoom-300</attribute>
    </item>
    <item>
      <attribute name="label">400% (4)</attribute>
      <attribute name="action">win.zoom-400</attribute>
    </item>
    <item>
      <attribute name="label">500% (5)</attribute>
      <attribute name="action">win.zoom-500</attribute>
    </item>
    <item>
      <attribute name="label">600% (6)</attribute>
      <attribute name="action">win.zoom-600</attribute>
    </item>
    <item>
      <attribute name="label">700% (7)</attribute>
      <attribute name="action">win.zoom-700</attribute>
    </item>
    <item>
      <attribute name="label">800% (8)</attribute>
      <attribute name="action">win.zoom-800</attribute>
    </item>
    <item>
      <attribute name="label">900% (9)</attribute>
      <attribute name="action">win.zoom-900</attribute>
    </item>
  </menu>
  <object class="GtkBox" id="region_controls">
    <property name="visible">false</property>
    <property name="halign">start</property>
    <property name="valign">end</property>
    <property name="margin-start">26</property>
    <property name="margin-end">26</property>
    <property name="margin-bottom">26</property>
    <style><class name="toolbar"/><class name="osd"/></style>
    <child>
      <object class="GtkButton">
        <property name="icon-name">zoom-in-symbolic</property>
        <property name="tooltip-text" translatable="yes">Zoom to Selected Region</property>
        <property name="action-name">win.selection-zoom</property>
      </object>
    </child>
    <child>
      <object class="GtkButton">
        <property name="icon-name">edit-cut-symbolic</property>
        <property name="tooltip-text" translatable="yes">Crop to Selected Region</property>
        <property name="action-name">win.selection-crop</property>
      </object>
    </child>
    <child>
      <object class="GtkButton">
        <property name="icon-name">edit-copy-symbolic</property>
        <property name="tooltip-text" translatable="yes">Copy Selected Region</property>
        <property name="action-name">win.selection-copy</property>
      </object>
    </child>
  </object>
  <object class="GtkBox" id="zoom_controls">
    <property name="visible">true</property>
    <property name="halign">end</property>
    <property name="valign">end</property>
    <property name="margin-start">26</property>
    <property name="margin-end">26</property>
    <property name="margin-bottom">26</property>
    <style><class name="toolbar"/><class name="osd"/></style>
    <child>
      <object class="GtkButton">
        <property name="icon-name">zoom-out-symbolic</property>
        <property name="tooltip-text" translatable="yes">Zoom Out</property>
        <property name="action-name">win.zoom-out</property>
      </object>
    </child>
    <child>
      <object class="GtkMenuButton" id="zoom_label">
        <property name="label">100%</property>
        <property name="tooltip-text" translatable="yes">Zoom presets (0: Fit; 1–9: 100%–900%)</property>
        <property name="menu-model">zoom_menu</property>
        <property name="margin-start">8</property>
        <property name="margin-end">8</property>
      </object>
    </child>
    <child>
      <object class="GtkButton">
        <property name="icon-name">zoom-in-symbolic</property>
        <property name="tooltip-text" translatable="yes">Zoom In</property>
        <property name="action-name">win.zoom-in</property>
      </object>
    </child>
  </object>
  <object class="GtkBox" id="pencil_controls">
    <property name="visible">false</property>
    <property name="halign">start</property>
    <property name="valign">end</property>
    <property name="margin-start">26</property>
    <property name="margin-end">26</property>
    <property name="margin-bottom">26</property>
    <style><class name="toolbar"/><class name="osd"/></style>
    <child>
      <object class="GtkToggleButton" id="pencil">
        <property name="icon-name">pencil-symbolic</property>
        <property name="tooltip-text" translatable="yes">Pencil</property>
      </object>
    </child>
    <child>
      <object class="GtkToggleButton" id="highlight">
        <property name="icon-name">highlight-symbolic</property>
        <property name="tooltip-text" translatable="yes">Highlight</property>
      </object>
    </child>
    <child>
      <object class="GtkToggleButton" id="arrow">
        <property name="icon-name">arrow-symbolic</property>
        <property name="tooltip-text" translatable="yes">Arrow</property>
      </object>
    </child>
    <child>
      <object class="GtkToggleButton" id="measure">
        <property name="icon-name">ruler-measure-symbolic</property>
        <property name="tooltip-text" translatable="yes">Measure — drag an axis-aligned measurement line</property>
      </object>
    </child>
    <child>
      <object class="GtkToggleButton" id="text">
        <property name="icon-name">text-symbolic</property>
        <property name="tooltip-text" translatable="yes">Text</property>
      </object>
    </child>
    <child>
      <object class="GtkSeparator">
        <property name="orientation">vertical</property>
      </object>
    </child>
    <child>
      <object class="GtkColorDialogButton" id="color_button">
        <property name="tooltip-text" translatable="yes">Annotation color</property>
        <property name="dialog">
          <object class="GtkColorDialog"/>
        </property>
      </object>
    </child>
    <child>
      <object class="GtkToggleButton" id="pick_color">
        <property name="icon-name">color-select-symbolic</property>
        <property name="tooltip-text" translatable="yes">Pick Color — click a pixel to copy its value</property>
      </object>
    </child>
    <child>
      <object class="GtkToggleButton" id="lens_button">
        <property name="icon-name">edit-find-symbolic</property>
        <property name="tooltip-text" translatable="yes">Toggle 4× Lens</property>
      </object>
    </child>
    <child>
      <object class="GtkSeparator">
        <property name="orientation">vertical</property>
      </object>
    </child>
    <child>
      <object class="GtkSpinButton" id="pencil_size">
        <property name="width-chars">2</property>
        <property name="tooltip-text" translatable="yes">Width in image pixels</property>
        <property name="adjustment">
          <object class="GtkAdjustment">
            <property name="lower">1</property>
            <property name="upper">128</property>
            <property name="value">1</property>
            <property name="step-increment">1</property>
          </object>
        </property>
      </object>
    </child>
  </object>
  <object class="GtkBox" id="scale_controls">
    <property name="visible">false</property>
    <property name="halign">fill</property>
    <property name="valign">end</property>
    <property name="margin-start">26</property>
    <property name="margin-end">26</property>
    <property name="margin-bottom">26</property>
    <style><class name="toolbar"/><class name="osd"/></style>
    <property name="orientation">vertical</property>
    <property name="spacing">12</property>
    <property name="hexpand">true</property>
    <child>
      <object class="AdwWrapBox">
        <property name="align">0.5</property>
        <property name="child-spacing">6</property>
        <property name="line-spacing">6</property>
        <property name="hexpand">true</property>
        <child>
          <object class="GtkButton">
            <property name="icon-name">window-close-symbolic</property>
            <property name="tooltip-text" translatable="yes">Cancel Scale</property>
            <property name="action-name">win.cancel-scale</property>
          </object>
        </child>
        <child>
          <object class="GtkBox">
            <property name="spacing">6</property>
            <child>
              <object class="GtkLabel">
                <property name="label">W</property>
              </object>
            </child>
            <child>
              <object class="GtkSpinButton" id="scale_width">
                <property name="width-chars">6</property>
                <property name="tooltip-text" translatable="yes">Output width in pixels</property>
                <property name="adjustment">
                  <object class="GtkAdjustment">
                    <property name="lower">1</property>
                    <property name="upper">2</property>
                    <property name="value">1</property>
                    <property name="step-increment">1</property>
                  </object>
                </property>
              </object>
            </child>
            <child>
              <object class="GtkLabel">
                <property name="label">× H</property>
              </object>
            </child>
            <child>
              <object class="GtkSpinButton" id="scale_height">
                <property name="width-chars">6</property>
                <property name="tooltip-text" translatable="yes">Output height in pixels</property>
                <property name="adjustment">
                  <object class="GtkAdjustment">
                    <property name="lower">1</property>
                    <property name="upper">2</property>
                    <property name="value">1</property>
                    <property name="step-increment">1</property>
                  </object>
                </property>
              </object>
            </child>
            <child>
              <object class="GtkToggleButton" id="scale_lock">
                <property name="label" translatable="yes">Aspect</property>
                <property name="tooltip-text" translatable="yes">Lock the source aspect ratio</property>
                <property name="active">true</property>
              </object>
            </child>
          </object>
        </child>
        <child>
          <object class="GtkDropDown" id="scale_unit">
            <property name="tooltip-text" translatable="yes">Slider unit</property>
            <property name="model">
              <object class="GtkStringList">
                <items>
                  <item translatable="yes">Pixels</item>
                  <item translatable="yes">Percent</item>
                </items>
              </object>
            </property>
          </object>
        </child>
        <child>
          <object class="GtkLabel" id="scale_method">
            <property name="tooltip-text" translatable="yes">Scaling method from Properties</property>
            <property name="margin-start">8</property>
            <property name="margin-end">8</property>
            <property name="margin-top">6</property>
            <property name="margin-bottom">6</property>
            <style><class name="dim-label"/></style>
          </object>
        </child>
        <child>
          <object class="GtkBox">
            <style><class name="linked"/></style>
            <child>
              <object class="GtkButton" id="scale_original">
                <property name="label" translatable="yes">Hold Original</property>
                <property name="tooltip-text" translatable="yes">Press and hold to show the unscaled source image</property>
              </object>
            </child>
            <child>
              <object class="GtkButton">
                <property name="label" translatable="yes">Actual Pixels</property>
                <property name="tooltip-text" translatable="yes">Show each scaled output pixel at its actual size</property>
                <property name="action-name">win.scale-actual-size</property>
              </object>
            </child>
            <child>
              <object class="GtkButton">
                <property name="label" translatable="yes">Fit Preview</property>
                <property name="tooltip-text" translatable="yes">Fit the complete scaled preview in the window</property>
                <property name="action-name">win.scale-fit</property>
              </object>
            </child>
          </object>
        </child>
        <child>
          <object class="GtkButton">
            <property name="icon-name">object-select-symbolic</property>
            <property name="tooltip-text" translatable="yes">Apply Scale</property>
            <property name="action-name">win.confirm-scale</property>
          </object>
        </child>
      </object>
    </child>
    <child>
      <object class="GtkBox">
        <property name="spacing">6</property>
        <property name="hexpand">true</property>
        <child>
          <object class="GtkLabel" id="scale_value">
            <property name="label">1 × 1 → 1 × 1 (100%)</property>
          </object>
        </child>
        <child>
          <object class="AdwSpinner" id="scale_spinner">
            <property name="visible">false</property>
            <property name="tooltip-text" translatable="yes">Generating scale preview</property>
          </object>
        </child>
        <child>
          <object class="GtkScale" id="scale_slider">
            <property name="hexpand">true</property>
            <property name="draw-value">false</property>
            <property name="tooltip-text" translatable="yes">Scaled width in pixels</property>
            <property name="adjustment">
              <object class="GtkAdjustment">
                <property name="lower">1</property>
                <property name="upper">2</property>
                <property name="value">1</property>
                <property name="step-increment">1</property>
              </object>
            </property>
          </object>
        </child>
      </object>
    </child>
  </object>
  <object class="GtkBox" id="mesh_controls">
    <property name="visible">false</property>
    <property name="halign">center</property>
    <property name="valign">end</property>
    <property name="margin-start">26</property>
    <property name="margin-end">26</property>
    <property name="margin-bottom">26</property>
    <style><class name="toolbar"/><class name="osd"/></style>
    <child>
      <object class="GtkToggleButton" id="mesh_square">
        <property name="icon-name">view-grid-symbolic</property>
        <property name="tooltip-text" translatable="yes">Square Grid</property>
      </object>
    </child>
    <child>
      <object class="GtkToggleButton" id="mesh_dimetric">
        <property name="icon-name">grid-dimetric-symbolic</property>
        <property name="tooltip-text" translatable="yes">Dimetric Grid</property>
      </object>
    </child>
    <child>
      <object class="GtkToggleButton" id="mesh_isometric">
        <property name="icon-name">grid-isometric-symbolic</property>
        <property name="tooltip-text" translatable="yes">Isometric Grid</property>
      </object>
    </child>
    <child>
      <object class="GtkToggleButton" id="mesh_warp">
        <property name="icon-name">mesh-warp-symbolic</property>
        <property name="tooltip-text" translatable="yes">Warp Mesh</property>
      </object>
    </child>
    <child>
      <object class="GtkButton">
        <property name="icon-name">edit-clear-symbolic</property>
        <property name="tooltip-text" translatable="yes">Clear Mesh</property>
        <property name="action-name">win.clear-mesh</property>
      </object>
    </child>
    <child>
      <object class="GtkButton">
        <property name="icon-name">object-select-symbolic</property>
        <property name="tooltip-text" translatable="yes">Apply Mesh</property>
        <property name="action-name">win.apply-mesh</property>
      </object>
    </child>
  </object>
  <object class="GtkToggleButton" id="scale_button">
    <property name="icon-name">view-fullscreen-symbolic</property>
    <property name="tooltip-text" translatable="yes">Scale image</property>
  </object>
  <object class="AdwToolbarView" id="content">
    <child type="top">
      <object class="AdwHeaderBar">
        <property name="title-widget">
          <object class="AdwWindowTitle" id="title">
            <property name="title">Diorama</property>
            <property name="subtitle" translatable="yes">Open an image to begin</property>
          </object>
        </property>
        <child type="start">
          <object class="GtkBox" id="animation_controls">
            <property name="visible">false</property>
            <style><class name="linked"/></style>
            <child>
              <object class="GtkButton">
                <property name="icon-name">media-skip-backward-symbolic</property>
                <property name="tooltip-text" translatable="yes">Previous Frame</property>
                <property name="action-name">win.previous-frame</property>
              </object>
            </child>
            <child>
              <object class="GtkButton" id="play_button">
                <property name="icon-name">media-playback-pause-symbolic</property>
                <property name="tooltip-text" translatable="yes">Stop animation</property>
                <property name="action-name">win.play-pause</property>
              </object>
            </child>
            <child>
              <object class="GtkButton">
                <property name="icon-name">media-skip-forward-symbolic</property>
                <property name="tooltip-text" translatable="yes">Next Frame</property>
                <property name="action-name">win.next-frame</property>
              </object>
            </child>
          </object>
        </child>
        <child type="start">
          <object class="GtkButton">
            <property name="icon-name">go-previous-symbolic</property>
            <property name="tooltip-text" translatable="yes">Previous Image</property>
            <property name="action-name">win.previous</property>
          </object>
        </child>
        <child type="start">
          <object class="GtkButton">
            <property name="icon-name">go-next-symbolic</property>
            <property name="tooltip-text" translatable="yes">Next Image</property>
            <property name="action-name">win.next</property>
          </object>
        </child>
        <child type="end">
          <object class="GtkMenuButton" id="menu_button">
            <property name="icon-name">open-menu-symbolic</property>
            <property name="tooltip-text" translatable="yes">Main Menu</property>
            <property name="primary">true</property>
          </object>
        </child>
        <child type="end">
          <object class="GtkButton" id="save_as">
            <property name="icon-name">media-floppy-symbolic</property>
            <property name="tooltip-text" translatable="yes">Save As</property>
            <property name="action-name">win.save-as</property>
          </object>
        </child>
      </object>
    </child>
    <child type="top">
      <object class="AdwBanner" id="view_only">
        <property name="title" translatable="yes">This image can be viewed, but its decoder does not support editing.</property>
      </object>
    </child>
    <property name="content">
      <object class="GtkStack" id="stack">
        <property name="hexpand">true</property>
        <property name="vexpand">true</property>
        <property name="transition-type">crossfade</property>
        <child>
          <object class="GtkStackPage">
            <property name="name">empty</property>
            <property name="child">
              <object class="AdwStatusPage" id="empty">
                <property name="icon-name">image-x-generic-symbolic</property>
                <property name="title" translatable="yes">Open an Image</property>
                <property name="description" translatable="yes">Choose an image to view, compare, or edit.</property>
                <property name="child">
                  <object class="GtkButton">
                    <property name="label" translatable="yes">Open Image</property>
                    <property name="action-name">win.open</property>
                    <property name="halign">center</property>
                    <style><class name="suggested-action"/><class name="pill"/></style>
                  </object>
                </property>
              </object>
            </property>
          </object>
        </child>
        <child>
          <object class="GtkStackPage">
            <property name="name">loading</property>
            <property name="child">
              <object class="AdwStatusPage">
                <property name="title" translatable="yes">Loading Image</property>
                <property name="description" translatable="yes">Preparing the image for viewing.</property>
                <property name="child">
                  <object class="AdwSpinner">
                    <property name="halign">center</property>
                  </object>
                </property>
              </object>
            </property>
          </object>
        </child>
        <child>
          <object class="GtkStackPage">
            <property name="name">error</property>
            <property name="child">
              <object class="AdwStatusPage" id="error">
                <property name="icon-name">dialog-error-symbolic</property>
                <property name="title" translatable="yes">Could Not Open Image</property>
                <property name="description" translatable="yes">The image could not be loaded.</property>
                <property name="child">
                  <object class="GtkButton">
                    <property name="label" translatable="yes">Open Another Image</property>
                    <property name="action-name">win.open</property>
                    <property name="halign">center</property>
                    <style><class name="suggested-action"/><class name="pill"/></style>
                  </object>
                </property>
              </object>
            </property>
          </object>
        </child>
        <child>
          <object class="GtkStackPage">
            <property name="name">viewer</property>
            <property name="child">
              <object class="AdwToastOverlay" id="toasts">
                <property name="child">
                  <object class="GtkOverlay" id="overlay">
                    <property name="child">
                      <object class="GtkScrolledWindow" id="scrolled">
                        <property name="hexpand">true</property>
                        <property name="vexpand">true</property>
                        <property name="margin-top">10</property>
                        <property name="margin-bottom">10</property>
                        <property name="margin-start">10</property>
                        <property name="margin-end">10</property>
                      </object>
                    </property>
                  </object>
                </property>
              </object>
            </property>
          </object>
        </child>
      </object>
    </property>
  </object>
  <object class="AdwShortcutsDialog" id="shortcuts">
    <child>
      <object class="AdwShortcutsSection">
        <property name="title" translatable="yes">General</property>
        <child>
          <object class="AdwShortcutsItem">
            <property name="title" translatable="yes">Open</property>
            <property name="accelerator">&lt;Control>o</property>
          </object>
        </child>
        <child>
          <object class="AdwShortcutsItem">
            <property name="title" translatable="yes">Copy Image or Selection</property>
            <property name="accelerator">&lt;Control>c</property>
          </object>
        </child>
        <child>
          <object class="AdwShortcutsItem">
            <property name="title" translatable="yes">Save</property>
            <property name="accelerator">&lt;Control>s</property>
          </object>
        </child>
        <child>
          <object class="AdwShortcutsItem">
            <property name="title" translatable="yes">Save As</property>
            <property name="accelerator">&lt;Control>&lt;Shift>s</property>
          </object>
        </child>
        <child>
          <object class="AdwShortcutsItem">
            <property name="title" translatable="yes">Close</property>
            <property name="accelerator">&lt;Control>w</property>
          </object>
        </child>
        <child>
          <object class="AdwShortcutsItem">
            <property name="title" translatable="yes">Preferences</property>
            <property name="accelerator">&lt;Control>comma</property>
          </object>
        </child>
      </object>
    </child>
    <child>
      <object class="AdwShortcutsSection">
        <property name="title" translatable="yes">Viewing</property>
        <child>
          <object class="AdwShortcutsItem">
            <property name="title" translatable="yes">Zoom In</property>
            <property name="accelerator">plus</property>
          </object>
        </child>
        <child>
          <object class="AdwShortcutsItem">
            <property name="title" translatable="yes">Zoom Out</property>
            <property name="accelerator">minus</property>
          </object>
        </child>
        <child>
          <object class="AdwShortcutsItem">
            <property name="title" translatable="yes">Fit to Window</property>
            <property name="accelerator">0</property>
          </object>
        </child>
        <child>
          <object class="AdwShortcutsItem">
            <property name="title" translatable="yes">Zoom 100%–900%</property>
            <property name="accelerator">1–9</property>
          </object>
        </child>
        <child>
          <object class="AdwShortcutsItem">
            <property name="title" translatable="yes">Toggle Soft/Hard Zoom</property>
            <property name="accelerator">x</property>
          </object>
        </child>
        <child>
          <object class="AdwShortcutsItem">
            <property name="title" translatable="yes">Magnifying Lens</property>
            <property name="accelerator">l</property>
          </object>
        </child>
        <child>
          <object class="AdwShortcutsItem">
            <property name="title" translatable="yes">Previous Image</property>
            <property name="accelerator">Left</property>
          </object>
        </child>
        <child>
          <object class="AdwShortcutsItem">
            <property name="title" translatable="yes">Next Image</property>
            <property name="accelerator">Right</property>
          </object>
        </child>
        <child>
          <object class="AdwShortcutsItem">
            <property name="title" translatable="yes">Delete Image</property>
            <property name="accelerator">Delete</property>
          </object>
        </child>
      </object>
    </child>
    <child>
      <object class="AdwShortcutsSection">
        <property name="title" translatable="yes">Editing</property>
        <child>
          <object class="AdwShortcutsItem">
            <property name="title" translatable="yes">Undo</property>
            <property name="accelerator">&lt;Control>z</property>
          </object>
        </child>
        <child>
          <object class="AdwShortcutsItem">
            <property name="title" translatable="yes">Redo</property>
            <property name="accelerator">&lt;Control>&lt;Shift>z</property>
          </object>
        </child>
        <child>
          <object class="AdwShortcutsItem">
            <property name="title" translatable="yes">Rotate Clockwise</property>
            <property name="accelerator">r</property>
          </object>
        </child>
        <child>
          <object class="AdwShortcutsItem">
            <property name="title" translatable="yes">Rotate Counterclockwise</property>
            <property name="accelerator">&lt;Shift>r</property>
          </object>
        </child>
        <child>
          <object class="AdwShortcutsItem">
            <property name="title" translatable="yes">Flip Horizontally</property>
            <property name="accelerator">h</property>
          </object>
        </child>
        <child>
          <object class="AdwShortcutsItem">
            <property name="title" translatable="yes">Flip Vertically</property>
            <property name="accelerator">v</property>
          </object>
        </child>
        <child>
          <object class="AdwShortcutsItem">
            <property name="title" translatable="yes">Select Region</property>
            <property name="accelerator">c</property>
          </object>
        </child>
        <child>
          <object class="AdwShortcutsItem">
            <property name="title" translatable="yes">Highlight</property>
            <property name="accelerator">o</property>
          </object>
        </child>
        <child>
          <object class="AdwShortcutsItem">
            <property name="title" translatable="yes">Arrow</property>
            <property name="accelerator">a</property>
          </object>
        </child>
        <child>
          <object class="AdwShortcutsItem">
            <property name="title" translatable="yes">Measure</property>
            <property name="accelerator">m</property>
          </object>
        </child>
        <child>
          <object class="AdwShortcutsItem">
            <property name="title" translatable="yes">Text</property>
            <property name="accelerator">t</property>
          </object>
        </child>
        <child>
          <object class="AdwShortcutsItem">
            <property name="title" translatable="yes">Scale</property>
            <property name="accelerator">s</property>
          </object>
        </child>
        <child>
          <object class="AdwShortcutsItem">
            <property name="title" translatable="yes">Zoom Selected Region or Apply Scale</property>
            <property name="accelerator">Return</property>
          </object>
        </child>
        <child>
          <object class="AdwShortcutsItem">
            <property name="title" translatable="yes">Move Active Tool</property>
            <property name="accelerator">Left Right Up Down</property>
          </object>
        </child>
        <child>
          <object class="AdwShortcutsItem">
            <property name="title" translatable="yes">Set Tool Point</property>
            <property name="accelerator">space</property>
          </object>
        </child>
        <child>
          <object class="AdwShortcutsItem">
            <property name="title" translatable="yes">Clear Selection or Cancel Scale</property>
            <property name="accelerator">Escape</property>
          </object>
        </child>
        <child>
          <object class="AdwShortcutsItem">
            <property name="title" translatable="yes">Pencil</property>
            <property name="accelerator">p</property>
          </object>
        </child>
        <child>
          <object class="AdwShortcutsItem">
            <property name="title" translatable="yes">Exit Active Tool</property>
            <property name="accelerator">Escape</property>
          </object>
        </child>
      </object>
    </child>
  </object>
</interface>
