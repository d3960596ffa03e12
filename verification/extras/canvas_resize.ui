<?xml version="1.0" encoding="UTF-8"?>
<interface>
  <requires lib="gtk" version="4.10"/>
  <object class="GtkBox" id="root">
    <property name="orientation">vertical</property>
    <property name="spacing">12</property>
    <child>
      <object class="GtkBox">
        <property name="spacing">8</property>
        <child>
          <object class="GtkLabel">
            <property name="label" translatable="yes">_Width</property>
            <property name="use-underline">True</property>
            <property name="mnemonic-widget">width</property>
          </object>
        </child>
        <child>
          <object class="GtkSpinButton" id="width">
            <property name="width-chars">7</property>
          </object>
        </child>
        <child>
          <object class="GtkLabel">
            <property name="label" translatable="yes">_Height</property>
            <property name="use-underline">True</property>
            <property name="mnemonic-widget">height</property>
          </object>
        </child>
        <child>
          <object class="GtkSpinButton" id="height">
            <property name="width-chars">7</property>
          </object>
        </child>
      </object>
    </child>
    <child>
      <object class="GtkLabel">
        <property name="label" translatable="yes">Pixels · Image stays centered at its original size. Added space uses the detected background.</property>
        <property name="wrap">True</property>
        <property name="xalign">0</property>
      </object>
    </child>
    <child>
      <object class="GtkLabel" id="error">
        <property name="label" translatable="yes">This canvas exceeds the image memory limit. Choose smaller dimensions.</property>
        <property name="wrap">True</property>
        <property name="visible">False</property>
        <style>
          <class name="error"/>
        </style>
      </object>
    </child>
  </object>
</interface>
