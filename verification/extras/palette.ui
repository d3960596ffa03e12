<?xml version="1.0" encoding="UTF-8"?>
<interface>
  <requires lib="gtk" version="4.10"/>
  <object class="GtkAdjustment" id="colors">
    <property name="lower">2</property>
    <property name="upper">256</property>
    <property name="value">16</property>
    <property name="step-increment">1</property>
    <property name="page-increment">10</property>
  </object>
  <object class="GtkBox" id="root">
    <property name="orientation">vertical</property>
    <property name="spacing">12</property>
    <child>
      <object class="GtkBox">
        <property name="spacing">8</property>
        <child>
          <object class="GtkLabel">
            <property name="label" translatable="yes">Colors</property>
          </object>
        </child>
        <child>
          <object class="GtkScale">
            <property name="adjustment">colors</property>
            <property name="digits">0</property>
            <property name="hexpand">True</property>
          </object>
        </child>
        <child>
          <object class="GtkSpinButton">
            <property name="adjustment">colors</property>
          </object>
        </child>
      </object>
    </child>
    <child>
      <object class="GtkCheckButton" id="dithering">
        <property name="label" translatable="yes">Dithering</property>
      </object>
    </child>
    <child>
      <object class="GtkCheckButton" id="accents">
        <property name="label" translatable="yes">Preserve accents and isolated colors</property>
        <property name="active">True</property>
      </object>
    </child>
  </object>
</interface>
