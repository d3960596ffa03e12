<?xml version="1.0" encoding="UTF-8"?>
<interface>
  <requires lib="gtk" version="4.10"/>
  <requires lib="libadwaita" version="1.4"/>
  <object class="GtkBox" id="root">
    <property name="orientation">vertical</property>
    <child>
      <object class="GtkCenterBox" id="bar">
        <property name="margin-top">6</property>
        <property name="margin-bottom">6</property>
        <property name="margin-start">6</property>
        <property name="margin-end">6</property>
        <property name="center-widget">
          <object class="GtkBox">
            <property name="spacing">6</property>
            <child>
              <object class="GtkToggleButton" id="lock">
                <property name="icon-name">changes-prevent-symbolic</property>
                <property name="tooltip-text" translatable="yes">Synchronize Pan and Zoom</property>
                <property name="active">True</property>
              </object>
            </child>
            <child>
              <object class="GtkButton" id="close">
                <property name="icon-name">window-close-symbolic</property>
                <property name="tooltip-text" translatable="yes">Exit Compare Mode</property>
              </object>
            </child>
          </object>
        </property>
        <style>
          <class name="toolbar"/>
        </style>
      </object>
    </child>
    <child>
      <object class="AdwBreakpointBin">
        <property name="child">
          <object class="GtkPaned" id="paned">
            <property name="wide-handle">True</property>
            <property name="shrink-start-child">False</property>
            <property name="shrink-end-child">False</property>
          </object>
        </property>
        <child>
          <object class="AdwBreakpoint">
            <condition>max-width: 600px</condition>
            <setter object="paned" property="orientation">vertical</setter>
          </object>
        </child>
      </object>
    </child>
  </object>
</interface>
