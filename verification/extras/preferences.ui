<?xml version="1.0" encoding="UTF-8"?>
<interface>
  <requires lib="gtk" version="4.10"/>
  <requires lib="libadwaita" version="1.5"/>
  <object class="AdwPreferencesDialog" id="preferences">
    <property name="title" translatable="yes">Preferences</property>
    <property name="search-enabled">False</property>
    <child>
      <object class="AdwPreferencesPage">
        <property name="title" translatable="yes">Preferences</property>
        <child>
          <object class="AdwPreferencesGroup">
            <property name="title" translatable="yes">Viewing</property>
            <child>
              <object class="AdwSwitchRow" id="filter">
                <property name="title" translatable="yes">Hard zoom</property>
                <property name="subtitle" translatable="yes">Keep pixel edges sharp with nearest-neighbor rendering</property>
              </object>
            </child>
            <child>
              <object class="AdwComboRow" id="background">
                <property name="title" translatable="yes">Transparency background</property>
                <property name="model">
                  <object class="GtkStringList">
                    <items>
                      <item translatable="yes">Checkerboard</item>
                      <item translatable="yes">Auto</item>
                      <item translatable="yes">White</item>
                      <item translatable="yes">Gray</item>
                      <item translatable="yes">Black</item>
                    </items>
                  </object>
                </property>
              </object>
            </child>
            <child>
              <object class="AdwComboRow" id="lens">
                <property name="title" translatable="yes">Lens size</property>
                <property name="subtitle" translatable="yes">Diameter of the pixel-inspection lens</property>
                <property name="model">
                  <object class="GtkStringList">
                    <items>
                      <item translatable="yes">Small</item>
                      <item translatable="yes">Medium</item>
                      <item translatable="yes">Large</item>
                    </items>
                  </object>
                </property>
              </object>
            </child>
            <child>
              <object class="AdwComboRow" id="method">
                <property name="title" translatable="yes">Scaling method</property>
                <property name="model">
                  <object class="GtkStringList">
                    <items>
                      <item translatable="yes">Nearest</item>
                      <item translatable="yes">Linear</item>
                      <item translatable="yes">Bicubic</item>
                      <item translatable="yes">Seam carving</item>
                    </items>
                  </object>
                </property>
              </object>
            </child>
          </object>
        </child>
        <child>
          <object class="AdwPreferencesGroup">
            <property name="title" translatable="yes">Drawing</property>
            <child>
              <object class="AdwSwitchRow" id="smooth">
                <property name="title" translatable="yes">Anti-aliasing</property>
                <property name="subtitle" translatable="yes">Smooth the edges of pencil strokes and circles</property>
              </object>
            </child>
            <child>
              <object class="AdwComboRow" id="format">
                <property name="title" translatable="yes">Copied color format</property>
                <property name="subtitle" translatable="yes">Format used by the Color Picker tool</property>
                <property name="model">
                  <object class="GtkStringList">
                    <items>
                      <item translatable="yes">Hex</item>
                      <item translatable="yes">RGB(A)</item>
                      <item translatable="yes">OKLab</item>
                      <item translatable="yes">HSL</item>
                    </items>
                  </object>
                </property>
              </object>
            </child>
          </object>
        </child>
      </object>
    </child>
  </object>
</interface>
